//! UUIDs as 128-bit values, read from and written to their textual
//! forms: the hyphenated 8-4-4-4-12 spelling and the plain 32-digit
//! spelling.

use vstd::prelude::*;
use crate::bytes::{push_all, sub_vec};
use crate::hex::{all_hex, format_hex32, hex_msb_val, parse_hex32, spec_parse_hex32};

verus! {

/// The hyphenated shape: 36 bytes with `-` at positions 8, 13, 18, 23.
pub open spec fn spec_hyph_shape(s: Seq<u8>) -> bool {
    s.len() == 36 && s[8] == 45 && s[13] == 45 && s[18] == 45 && s[23] == 45
}

/// The 32 digit positions of a hyphenated spelling.
pub open spec fn spec_hyph_digits(s: Seq<u8>) -> Seq<u8> {
    s.subrange(0, 8) + s.subrange(9, 13) + s.subrange(14, 18) + s.subrange(19, 23) + s.subrange(
        24,
        36,
    )
}

/// Parsing a UUID spelling: the hyphenated form or the plain 32-digit
/// form, in either case.
pub open spec fn spec_parse_uuid(s: Seq<u8>) -> Option<u128> {
    if spec_hyph_shape(s) {
        spec_parse_hex32(spec_hyph_digits(s))
    } else {
        spec_parse_hex32(s)
    }
}

/// A symmetric pair of double quotes around `s` is stripped.
pub open spec fn spec_unquote(s: Seq<u8>) -> Seq<u8> {
    if s.len() >= 2 && s[0] == 34 && s[s.len() - 1] == 34 {
        s.subrange(1, s.len() - 1)
    } else {
        s
    }
}

/// Parse a UUID spelling.
pub fn parse_uuid(s: &[u8]) -> (r: Option<u128>)
    ensures
        r == spec_parse_uuid(s@),
{
    if s.len() == 36 && s[8] == 45 && s[13] == 45 && s[18] == 45 && s[23] == 45 {
        let mut d = sub_vec(s, 0, 8);
        push_all(&mut d, &s[9..13]);
        push_all(&mut d, &s[14..18]);
        push_all(&mut d, &s[19..23]);
        push_all(&mut d, &s[24..36]);
        proof {
            assert(d@ =~= spec_hyph_digits(s@));
        }
        parse_hex32(d.as_slice())
    } else {
        assert(!spec_hyph_shape(s@));
        parse_hex32(s)
    }
}

/// Strip one symmetric pair of double quotes, then parse.
pub fn parse_uuid_quoted(s: &[u8]) -> (r: Option<u128>)
    ensures
        r == spec_parse_uuid(spec_unquote(s@)),
{
    if s.len() >= 2 && s[0] == 34 && s[s.len() - 1] == 34 {
        let inner = sub_vec(s, 1, s.len() - 1);
        assert(inner@ == spec_unquote(s@));
        parse_uuid(inner.as_slice())
    } else {
        assert(spec_unquote(s@) == s@);
        parse_uuid(s)
    }
}

/// Write `v` in the hyphenated lowercase form; parsing it gives `v`
/// back.
pub fn format_uuid(v: u128) -> (out: Vec<u8>)
    ensures
        spec_hyph_shape(out@),
        all_hex(spec_hyph_digits(out@)),
        spec_parse_uuid(out@) == Some(v),
        hex_msb_val(spec_hyph_digits(out@)) == v as int,
        forall|i: int| 0 <= i < 36 ==> #[trigger] out@[i] != 47 && out@[i] != 34,
{
    let d = format_hex32(v);
    let ds = d.as_slice();
    let mut out = sub_vec(ds, 0, 8);
    out.push(45);
    push_all(&mut out, &ds[8..12]);
    out.push(45);
    push_all(&mut out, &ds[12..16]);
    out.push(45);
    push_all(&mut out, &ds[16..20]);
    out.push(45);
    push_all(&mut out, &ds[20..32]);
    proof {
        assert(out@.len() == 36);
        assert(out@[8] == 45 && out@[13] == 45 && out@[18] == 45 && out@[23] == 45);
        assert(spec_hyph_digits(out@) =~= d@);
        assert forall|i: int| 0 <= i < 36 implies #[trigger] out@[i] != 47 && out@[i] != 34 by {
            if i == 8 || i == 13 || i == 18 || i == 23 {
            } else {
                assert(crate::hex::is_hex(d@[if i < 8 {
                    i
                } else if i < 13 {
                    i - 1
                } else if i < 18 {
                    i - 2
                } else if i < 23 {
                    i - 3
                } else {
                    i - 4
                }]));
            }
        }
    }
    out
}

} // verus!
