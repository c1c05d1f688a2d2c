//! Hexadecimal digits and 128-bit values written as 32 hex digits.

use vstd::prelude::*;

verus! {

/// ASCII hex digit, either case.
pub open spec fn is_hex(b: u8) -> bool {
    (48 <= b <= 57) || (97 <= b <= 102) || (65 <= b <= 70)
}

/// The value of a hex digit; 0 for any other byte, so the function is
/// total and never negative.
pub open spec fn hex_val(b: u8) -> int {
    if 48 <= b <= 57 {
        b - 48
    } else if 97 <= b <= 102 {
        b - 87
    } else if 65 <= b <= 70 {
        b - 55
    } else {
        0
    }
}

pub open spec fn all_hex(s: Seq<u8>) -> bool {
    forall|i: int| 0 <= i < s.len() ==> is_hex(s[i])
}

/// 16 to the n-th power.
pub open spec fn p16(n: nat) -> int
    decreases n,
{
    if n == 0 {
        1
    } else {
        16 * p16((n - 1) as nat)
    }
}

/// The value of hex digits read most-significant first.
pub open spec fn hex_msb_val(s: Seq<u8>) -> int
    decreases s.len(),
{
    if s.len() == 0 {
        0
    } else {
        hex_msb_val(s.drop_last()) * 16 + hex_val(s.last())
    }
}

/// The value of hex digits read least-significant first.
pub open spec fn hex_lsb_val(s: Seq<u8>) -> int
    decreases s.len(),
{
    if s.len() == 0 {
        0
    } else {
        hex_val(s[0]) + 16 * hex_lsb_val(s.drop_first())
    }
}

/// The two powers of 16 that bound a 128-bit value.
pub proof fn lemma_p16_values()
    ensures
        p16(31) == 0x10000000000000000000000000000000,
        p16(32) == 0x100000000000000000000000000000000,
{
    reveal_with_fuel(p16, 33);
}

pub proof fn lemma_p16_pos(n: nat)
    ensures
        p16(n) >= 1,
    decreases n,
{
    if n > 0 {
        lemma_p16_pos((n - 1) as nat);
    }
}

pub proof fn lemma_p16_mono(a: nat, b: nat)
    requires
        a <= b,
    ensures
        p16(a) <= p16(b),
    decreases b,
{
    if a < b {
        lemma_p16_mono(a, (b - 1) as nat);
        lemma_p16_pos((b - 1) as nat);
    }
}

pub proof fn lemma_hex_msb_bound(s: Seq<u8>)
    ensures
        0 <= hex_msb_val(s) < p16(s.len()),
    decreases s.len(),
{
    if s.len() > 0 {
        lemma_hex_msb_bound(s.drop_last());
    }
}

proof fn lemma_lsb_push(s: Seq<u8>, x: u8)
    ensures
        hex_lsb_val(s.push(x)) == hex_lsb_val(s) + hex_val(x) * p16(s.len()),
    decreases s.len(),
{
    if s.len() == 0 {
        reveal_with_fuel(hex_lsb_val, 3);
        assert(s.push(x).drop_first() =~= Seq::<u8>::empty());
        assert(s.push(x)[0] == x);
        assert(p16(0) == 1);
        assert(hex_lsb_val(s.push(x)) == hex_val(x));
        assert(hex_lsb_val(s) + hex_val(x) * p16(s.len()) == hex_val(x));
    } else {
        let n = s.len();
        assert(s.push(x).drop_first() =~= s.drop_first().push(x));
        lemma_lsb_push(s.drop_first(), x);
        assert(s.push(x)[0] == s[0]);
        assert(hex_lsb_val(s.push(x)) == hex_val(s[0]) + 16 * hex_lsb_val(s.drop_first().push(x)));
        assert(p16(n) == 16 * p16((n - 1) as nat));
        assert(16 * (hex_lsb_val(s.drop_first()) + hex_val(x) * p16((n - 1) as nat)) == 16
            * hex_lsb_val(s.drop_first()) + hex_val(x) * p16(n)) by (nonlinear_arith)
            requires
                p16(n) == 16 * p16((n - 1) as nat),
        ;
        assert(hex_lsb_val(s) == hex_val(s[0]) + 16 * hex_lsb_val(s.drop_first()));
    }
}

/// Reading a digit string least-significant first and its reversal
/// most-significant first give the same value.
proof fn lemma_lsb_is_reversed_msb(s: Seq<u8>)
    ensures
        hex_msb_val(Seq::new(s.len(), |k: int| s[s.len() - 1 - k])) == hex_lsb_val(s),
    decreases s.len(),
{
    let r = Seq::new(s.len(), |k: int| s[s.len() - 1 - k]);
    if s.len() > 0 {
        let t = s.drop_first();
        lemma_lsb_is_reversed_msb(t);
        assert(r.drop_last() =~= Seq::new(t.len(), |k: int| t[t.len() - 1 - k]));
        assert(r.last() == s[0]);
    }
}

/// The value of a hex digit, or `None` if the byte is no hex digit.
pub fn hex_digit(b: u8) -> (r: Option<u8>)
    ensures
        match r {
            Some(v) => is_hex(b) && v == hex_val(b) && v < 16,
            None => !is_hex(b),
        },
{
    if 48 <= b && b <= 57 {
        Some(b - 48)
    } else if 97 <= b && b <= 102 {
        Some(b - 87)
    } else if 65 <= b && b <= 70 {
        Some(b - 55)
    } else {
        None
    }
}

/// The lowercase hex digit with value `d`.
pub fn hex_char(d: u8) -> (c: u8)
    requires
        d < 16,
    ensures
        is_hex(c),
        hex_val(c) == d,
        (48 <= c <= 57) || (97 <= c <= 102),
{
    if d < 10 {
        d + 48
    } else {
        d + 87
    }
}

/// What parsing 32 hex digits yields.
pub open spec fn spec_parse_hex32(s: Seq<u8>) -> Option<u128> {
    if s.len() == 32 && all_hex(s) {
        Some(hex_msb_val(s) as u128)
    } else {
        None
    }
}

/// Parse exactly 32 hex digits as a 128-bit value.
pub fn parse_hex32(s: &[u8]) -> (r: Option<u128>)
    ensures
        r == spec_parse_hex32(s@),
{
    if s.len() != 32 {
        return None;
    }
    let mut acc: u128 = 0;
    let mut i: usize = 0;
    while i < 32
        invariant
            i <= 32,
            s@.len() == 32,
            all_hex(s@.subrange(0, i as int)),
            acc as int == hex_msb_val(s@.subrange(0, i as int)),
        decreases 32 - i,
    {
        proof {
            lemma_hex_msb_bound(s@.subrange(0, i as int));
            lemma_p16_mono(i as nat, 31);
            lemma_p16_values();
        }
        match hex_digit(s[i]) {
            Some(d) => {
                proof {
                    assert(s@.subrange(0, i + 1).drop_last() =~= s@.subrange(0, i as int));
                }
                acc = acc * 16 + (d as u128);
                assert(all_hex(s@.subrange(0, i + 1)));
            },
            None => {
                assert(!is_hex(s@[i as int]));
                return None;
            },
        }
        i += 1;
    }
    proof {
        assert(s@.subrange(0, 32) =~= s@);
        lemma_hex_msb_bound(s@);
        lemma_p16_values();
    }
    Some(acc)
}

/// Write `v` as exactly 32 lowercase hex digits.
pub fn format_hex32(v: u128) -> (out: Vec<u8>)
    ensures
        out@.len() == 32,
        all_hex(out@),
        forall|i: int| 0 <= i < 32 ==> !(65 <= #[trigger] out@[i] <= 70),
        hex_msb_val(out@) == v as int,
        spec_parse_hex32(out@) == Some(v),
{
    let mut tmp: Vec<u8> = Vec::new();
    let mut cur: u128 = v;
    proof {
        lemma_p16_values();
    }
    let mut i: usize = 0;
    while i < 32
        invariant
            i <= 32,
            tmp@.len() == i,
            all_hex(tmp@),
            forall|k: int| 0 <= k < i ==> !(65 <= #[trigger] tmp@[k] <= 70),
            hex_lsb_val(tmp@) + cur as int * p16(i as nat) == v as int,
            (cur as int) < p16((32 - i) as nat),
        decreases 32 - i,
    {
        let d: u8 = (cur % 16) as u8;
        let c = hex_char(d);
        proof {
            lemma_lsb_push(tmp@, c);
            lemma_p16_pos(i as nat);
            assert((cur as int / 16) * p16((i + 1) as nat) + hex_val(c) * p16(i as nat) == cur
                as int * p16(i as nat)) by (nonlinear_arith)
                requires
                    p16((i + 1) as nat) == 16 * p16(i as nat),
                    hex_val(c) == cur as int % 16,
                    cur >= 0,
            ;
            assert((cur as int / 16) < p16((32 - (i + 1)) as nat)) by (nonlinear_arith)
                requires
                    (cur as int) < p16((32 - i) as nat),
                    p16((32 - i) as nat) == 16 * p16((32 - (i + 1)) as nat),
                    cur >= 0,
                    p16((32 - (i + 1)) as nat) >= 1,
            ;
        }
        tmp.push(c);
        cur = cur / 16;
        i += 1;
    }
    proof {
        assert(p16(0) == 1);
        assert(cur == 0);
        assert(hex_lsb_val(tmp@) == v as int);
    }
    let mut out: Vec<u8> = Vec::new();
    let mut k: usize = 0;
    while k < 32
        invariant
            k <= 32,
            tmp@.len() == 32,
            out@.len() == k,
            all_hex(tmp@),
            forall|m: int| 0 <= m < 32 ==> !(65 <= #[trigger] tmp@[m] <= 70),
            forall|m: int| 0 <= m < k ==> out@[m] == tmp@[31 - m],
        decreases 32 - k,
    {
        out.push(tmp[31 - k]);
        k += 1;
    }
    proof {
        assert(out@ =~= Seq::new(tmp@.len(), |m: int| tmp@[tmp@.len() - 1 - m]));
        lemma_lsb_is_reversed_msb(tmp@);
        lemma_hex_msb_bound(out@);
    }
    out
}

} // verus!
