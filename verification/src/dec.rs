//! Signed decimal numbers, as `i64::from_str` reads and writes them.

use vstd::prelude::*;

verus! {

/// ASCII decimal digit.
pub open spec fn is_dec(b: u8) -> bool {
    48 <= b <= 57
}

/// The value of a decimal digit; 0 for any other byte.
pub open spec fn dec_val(b: u8) -> int {
    if 48 <= b <= 57 {
        b - 48
    } else {
        0
    }
}

pub open spec fn all_dec(s: Seq<u8>) -> bool {
    forall|i: int| 0 <= i < s.len() ==> is_dec(s[i])
}

/// 10 to the n-th power.
pub open spec fn p10(n: nat) -> int
    decreases n,
{
    if n == 0 {
        1
    } else {
        10 * p10((n - 1) as nat)
    }
}

/// The value of decimal digits read most-significant first.
pub open spec fn dec_msb_val(s: Seq<u8>) -> int
    decreases s.len(),
{
    if s.len() == 0 {
        0
    } else {
        dec_msb_val(s.drop_last()) * 10 + dec_val(s.last())
    }
}

/// The value of decimal digits read least-significant first.
pub open spec fn dec_lsb_val(s: Seq<u8>) -> int
    decreases s.len(),
{
    if s.len() == 0 {
        0
    } else {
        dec_val(s[0]) + 10 * dec_lsb_val(s.drop_first())
    }
}

pub proof fn lemma_p10_pos(n: nat)
    ensures
        p10(n) >= 1,
    decreases n,
{
    if n > 0 {
        lemma_p10_pos((n - 1) as nat);
    }
}

pub proof fn lemma_dec_msb_nonneg(s: Seq<u8>)
    ensures
        dec_msb_val(s) >= 0,
    decreases s.len(),
{
    if s.len() > 0 {
        lemma_dec_msb_nonneg(s.drop_last());
    }
}

/// Dropping trailing digits never increases the value.
pub proof fn lemma_dec_prefix_le(s: Seq<u8>, i: int)
    requires
        0 <= i <= s.len(),
    ensures
        dec_msb_val(s.subrange(0, i)) <= dec_msb_val(s),
    decreases s.len() - i,
{
    if i < s.len() {
        let t = s.subrange(0, s.len() - 1);
        assert(t =~= s.drop_last());
        lemma_dec_prefix_le(t, i);
        assert(t.subrange(0, i) =~= s.subrange(0, i));
        lemma_dec_msb_nonneg(t);
    } else {
        assert(s.subrange(0, i) =~= s);
    }
}

proof fn lemma_dec_lsb_push(s: Seq<u8>, x: u8)
    ensures
        dec_lsb_val(s.push(x)) == dec_lsb_val(s) + dec_val(x) * p10(s.len()),
    decreases s.len(),
{
    if s.len() == 0 {
        reveal_with_fuel(dec_lsb_val, 3);
        assert(s.push(x).drop_first() =~= Seq::<u8>::empty());
        assert(s.push(x)[0] == x);
        assert(p10(0) == 1);
    } else {
        let n = s.len();
        assert(s.push(x).drop_first() =~= s.drop_first().push(x));
        lemma_dec_lsb_push(s.drop_first(), x);
        assert(s.push(x)[0] == s[0]);
        assert(dec_lsb_val(s.push(x)) == dec_val(s[0]) + 10 * dec_lsb_val(s.drop_first().push(x)));
        assert(p10(n) == 10 * p10((n - 1) as nat));
        assert(10 * (dec_lsb_val(s.drop_first()) + dec_val(x) * p10((n - 1) as nat)) == 10
            * dec_lsb_val(s.drop_first()) + dec_val(x) * p10(n)) by (nonlinear_arith)
            requires
                p10(n) == 10 * p10((n - 1) as nat),
        ;
        assert(dec_lsb_val(s) == dec_val(s[0]) + 10 * dec_lsb_val(s.drop_first()));
    }
}

proof fn lemma_dec_lsb_is_reversed_msb(s: Seq<u8>)
    ensures
        dec_msb_val(Seq::new(s.len(), |k: int| s[s.len() - 1 - k])) == dec_lsb_val(s),
    decreases s.len(),
{
    let r = Seq::new(s.len(), |k: int| s[s.len() - 1 - k]);
    if s.len() > 0 {
        let t = s.drop_first();
        lemma_dec_lsb_is_reversed_msb(t);
        assert(r.drop_last() =~= Seq::new(t.len(), |k: int| t[t.len() - 1 - k]));
        assert(r.last() == s[0]);
    }
}

/// The digit part of a signed decimal string: an optional single `+`
/// or `-` is allowed in front.
pub open spec fn spec_dec_digits(s: Seq<u8>) -> Seq<u8> {
    if s.len() > 0 && (s[0] == 43 || s[0] == 45) {
        s.drop_first()
    } else {
        s
    }
}

pub open spec fn spec_dec_negative(s: Seq<u8>) -> bool {
    s.len() > 0 && s[0] == 45
}

/// What `i64::from_str` accepts: an optional sign, then one or more
/// digits, and a value within the 64-bit signed range.
pub open spec fn spec_parse_i64(s: Seq<u8>) -> Option<i64> {
    let ds = spec_dec_digits(s);
    if ds.len() >= 1 && all_dec(ds) {
        let m = dec_msb_val(ds);
        if spec_dec_negative(s) {
            if m <= 0x8000000000000000 {
                Some((-m) as i64)
            } else {
                None
            }
        } else {
            if m <= 0x7fffffffffffffff {
                Some(m as i64)
            } else {
                None
            }
        }
    } else {
        None
    }
}

/// Parse a signed decimal number, exactly as `i64::from_str` does.
pub fn parse_i64_dec(s: &[u8]) -> (r: Option<i64>)
    ensures
        r == spec_parse_i64(s@),
{
    let mut start: usize = 0;
    let mut neg: bool = false;
    if s.len() > 0 && (s[0] == 43 || s[0] == 45) {
        neg = s[0] == 45;
        start = 1;
    }
    assert(spec_dec_digits(s@) =~= s@.subrange(start as int, s@.len() as int));
    assert(neg == spec_dec_negative(s@));
    if s.len() == start {
        return None;
    }
    let ghost ds = spec_dec_digits(s@);
    let mut acc: u128 = 0;
    let mut i: usize = start;
    while i < s.len()
        invariant
            start <= i <= s@.len(),
            ds == spec_dec_digits(s@),
            ds == s@.subrange(start as int, s@.len() as int),
            neg == spec_dec_negative(s@),
            all_dec(ds.subrange(0, i - start)),
            acc as int == dec_msb_val(ds.subrange(0, i - start)),
            acc <= 0x8000000000000000,
        decreases s@.len() - i,
    {
        let b = s[i];
        if b < 48 || b > 57 {
            assert(!is_dec(ds[i - start]));
            assert(!all_dec(ds));
            return None;
        }
        proof {
            assert(ds.subrange(0, i + 1 - start).drop_last() =~= ds.subrange(0, i - start));
        }
        acc = acc * 10 + ((b - 48) as u128);
        assert(all_dec(ds.subrange(0, i + 1 - start)));
        assert(acc as int == dec_msb_val(ds.subrange(0, i + 1 - start)));
        if acc > 0x8000000000000000 {
            proof {
                lemma_dec_prefix_le(ds, i + 1 - start);
                assert(dec_msb_val(ds) > 0x8000000000000000);
            }
            return None;
        }
        i += 1;
    }
    proof {
        assert(ds.subrange(0, s@.len() - start) =~= ds);
    }
    if neg {
        Some((-(acc as i128)) as i64)
    } else {
        if acc > 0x7fffffffffffffff {
            return None;
        }
        Some(acc as i64)
    }
}

/// Write `v` in decimal: a leading `-` when negative, then the digits
/// with no leading zero. Parsing the result gives `v` back.
pub fn format_i64_dec(v: i64) -> (out: Vec<u8>)
    ensures
        spec_parse_i64(out@) == Some(v),
{
    let m: u64 = if v < 0 {
        (-(v as i128)) as u64
    } else {
        v as u64
    };
    let mut tmp: Vec<u8> = Vec::new();
    let mut cur: u64 = m;
    while cur > 0
        invariant
            all_dec(tmp@),
            dec_lsb_val(tmp@) + cur as int * p10(tmp@.len()) == m as int,
        decreases cur,
    {
        let d: u8 = (cur % 10) as u8;
        let c: u8 = d + 48;
        proof {
            lemma_dec_lsb_push(tmp@, c);
            lemma_p10_pos(tmp@.len());
            assert((cur as int / 10) * p10((tmp@.len() + 1) as nat) + dec_val(c) * p10(
                tmp@.len()) == cur as int * p10(tmp@.len())) by (nonlinear_arith)
                requires
                    p10((tmp@.len() + 1) as nat) == 10 * p10(tmp@.len()),
                    dec_val(c) == cur as int % 10,
                    cur >= 0,
            ;
        }
        tmp.push(c);
        cur = cur / 10;
    }
    proof {
        assert(cur as int * p10(tmp@.len()) == 0) by (nonlinear_arith)
            requires
                cur == 0,
        ;
    }
    if tmp.len() == 0 {
        assert(dec_lsb_val(tmp@) == 0);
        assert(m as int == 0) by (nonlinear_arith)
            requires
                dec_lsb_val(tmp@) + cur as int * p10(tmp@.len()) == m as int,
                dec_lsb_val(tmp@) == 0,
                cur == 0,
        ;
        proof {
            assert(tmp@ =~= Seq::<u8>::empty());
        }
        tmp.push(48);
        proof {
            lemma_dec_lsb_push(Seq::<u8>::empty(), 48);
            assert(dec_val(48) == 0);
            assert(dec_val(48) * p10(0) == 0) by (nonlinear_arith)
                requires
                    dec_val(48) == 0,
            ;
        }
    }
    assert(dec_lsb_val(tmp@) == m as int);
    let mut digits: Vec<u8> = Vec::new();
    let n = tmp.len();
    let mut k: usize = 0;
    while k < n
        invariant
            k <= n,
            n == tmp@.len(),
            digits@.len() == k,
            all_dec(tmp@),
            forall|j: int| 0 <= j < k ==> digits@[j] == tmp@[n - 1 - j],
        decreases n - k,
    {
        digits.push(tmp[n - 1 - k]);
        k += 1;
    }
    proof {
        assert(digits@ =~= Seq::new(tmp@.len(), |j: int| tmp@[tmp@.len() - 1 - j]));
        lemma_dec_lsb_is_reversed_msb(tmp@);
        assert(dec_msb_val(digits@) == m as int);
        assert(all_dec(digits@));
        assert(digits@.len() >= 1);
    }
    if v < 0 {
        let mut out: Vec<u8> = Vec::new();
        out.push(45);
        let mut k2: usize = 0;
        while k2 < digits.len()
            invariant
                k2 <= digits@.len(),
                out@.len() == k2 + 1,
                out@[0] == 45u8,
                forall|j: int| 0 <= j < k2 ==> out@[j + 1] == digits@[j],
            decreases digits@.len() - k2,
        {
            out.push(digits[k2]);
            k2 += 1;
        }
        proof {
            assert(spec_dec_digits(out@) =~= digits@);
            assert(spec_dec_negative(out@));
            assert(dec_msb_val(digits@) == m as int);
            assert(m as int <= 0x8000000000000000);
            assert((-(m as int)) as i64 == v);
        }
        out
    } else {
        proof {
            assert(spec_dec_digits(digits@) =~= digits@);
            assert(!spec_dec_negative(digits@));
            assert(m as int <= 0x7fffffffffffffff);
        }
        digits
    }
}

} // verus!
