//! Small verified helpers on byte slices, shared by the parsers.

use vstd::prelude::*;

verus! {

use vstd::slice::slice_to_vec;

/// True iff the two byte slices hold the same bytes.
pub fn bytes_eq(a: &[u8], b: &[u8]) -> (r: bool)
    ensures
        r == (a@ == b@),
{
    if a.len() != b.len() {
        assert(a@.len() != b@.len());
        return false;
    }
    let mut i: usize = 0;
    while i < a.len()
        invariant
            i <= a.len(),
            a.len() == b.len(),
            forall|j: int| 0 <= j < i ==> a@[j] == b@[j],
        decreases a.len() - i,
    {
        if a[i] != b[i] {
            assert(a@ != b@);
            return false;
        }
        i += 1;
    }
    assert(a@ =~= b@);
    true
}

/// `p` is a prefix of `s`.
pub open spec fn is_prefix(p: Seq<u8>, s: Seq<u8>) -> bool {
    p.len() <= s.len() && s.subrange(0, p.len() as int) == p
}

/// `p` is a suffix of `s`.
pub open spec fn is_suffix(p: Seq<u8>, s: Seq<u8>) -> bool {
    p.len() <= s.len() && s.subrange(s.len() - p.len(), s.len() as int) == p
}

pub fn starts_with(s: &[u8], p: &[u8]) -> (r: bool)
    ensures
        r == is_prefix(p@, s@),
{
    if p.len() > s.len() {
        return false;
    }
    let mut i: usize = 0;
    while i < p.len()
        invariant
            i <= p.len() <= s.len(),
            forall|j: int| 0 <= j < i ==> s@[j] == p@[j],
        decreases p.len() - i,
    {
        if s[i] != p[i] {
            assert(s@.subrange(0, p@.len() as int)[i as int] != p@[i as int]);
            return false;
        }
        i += 1;
    }
    assert(s@.subrange(0, p@.len() as int) =~= p@);
    true
}

pub fn ends_with(s: &[u8], p: &[u8]) -> (r: bool)
    ensures
        r == is_suffix(p@, s@),
{
    if p.len() > s.len() {
        return false;
    }
    let off: usize = s.len() - p.len();
    let mut i: usize = 0;
    while i < p.len()
        invariant
            i <= p.len() <= s.len(),
            off == s.len() - p.len(),
            forall|j: int| 0 <= j < i ==> s@[off + j] == p@[j],
        decreases p.len() - i,
    {
        if s[off + i] != p[i] {
            assert(s@.subrange(s@.len() - p@.len(), s@.len() as int)[i as int] != p@[i as int]);
            return false;
        }
        i += 1;
    }
    assert(s@.subrange(s@.len() - p@.len(), s@.len() as int) =~= p@);
    true
}

/// `i` is the first position of `d` in `s`.
pub open spec fn is_first_at(s: Seq<u8>, d: u8, i: int) -> bool {
    &&& 0 <= i < s.len()
    &&& s[i] == d
    &&& forall|j: int| 0 <= j < i ==> s[j] != d
}

/// The first position of `d` in `s`, if any.
pub open spec fn spec_find(s: Seq<u8>, d: u8) -> Option<int> {
    if exists|i: int| is_first_at(s, d, i) {
        Some(choose|i: int| is_first_at(s, d, i))
    } else {
        None
    }
}

pub fn find_byte(s: &[u8], d: u8) -> (r: Option<usize>)
    ensures
        match r {
            Some(i) => i < s@.len() && spec_find(s@, d) == Some(i as int),
            None => spec_find(s@, d) is None,
        },
{
    let mut i: usize = 0;
    while i < s.len()
        invariant
            i <= s.len(),
            forall|j: int| 0 <= j < i ==> s@[j] != d,
        decreases s.len() - i,
    {
        if s[i] == d {
            proof {
                assert(is_first_at(s@, d, i as int));
                let w = choose|w: int| is_first_at(s@, d, w);
                if w < i {
                    assert(s@[w] != d);
                } else if w > i {
                    assert(s@[i as int] != d);
                }
            }
            return Some(i);
        }
        i += 1;
    }
    proof {
        if exists|w: int| is_first_at(s@, d, w) {
            let w = choose|w: int| is_first_at(s@, d, w);
            assert(s@[w] != d);
        }
    }
    None
}

pub fn contains_byte(s: &[u8], d: u8) -> (r: bool)
    ensures
        r == exists|i: int| 0 <= i < s@.len() && s@[i] == d,
{
    let r = find_byte(s, d);
    proof {
        match spec_find(s@, d) {
            Some(i) => {
                assert(is_first_at(s@, d, choose|w: int| is_first_at(s@, d, w)));
            },
            None => {
                if exists|i: int| 0 <= i < s@.len() && s@[i] == d {
                    let i = choose|i: int| 0 <= i < s@.len() && s@[i] == d;
                    lemma_first_exists(s@, d, i);
                }
            },
        }
    }
    r.is_some()
}

proof fn lemma_first_exists(s: Seq<u8>, d: u8, i: int)
    requires
        0 <= i < s.len(),
        s[i] == d,
    ensures
        exists|k: int| is_first_at(s, d, k),
    decreases i,
{
    if forall|j: int| 0 <= j < i ==> s[j] != d {
        assert(is_first_at(s, d, i));
    } else {
        let j = choose|j: int| 0 <= j < i && s[j] == d;
        lemma_first_exists(s, d, j);
    }
}

/// A copy of `s[from..to]`.
pub fn sub_vec(s: &[u8], from: usize, to: usize) -> (out: Vec<u8>)
    requires
        from <= to <= s@.len(),
    ensures
        out@ == s@.subrange(from as int, to as int),
{
    let piece: &[u8] = &s[from..to];
    slice_to_vec(piece)
}

/// Splitting `s` at every occurrence of `d`, keeping empty pieces, as
/// `str::split` does.
pub open spec fn spec_split(s: Seq<u8>, d: u8) -> Seq<Seq<u8>>
    decreases s.len(),
{
    match spec_find(s, d) {
        Some(i) => seq![s.subrange(0, i)] + spec_split(s.subrange(i + 1, s.len() as int), d),
        None => seq![s],
    }
}

pub fn split_on(s: &[u8], d: u8) -> (out: Vec<Vec<u8>>)
    ensures
        out.deep_view() == spec_split(s@, d),
    decreases s@.len(),
{
    match find_byte(s, d) {
        Some(i) => {
            assert(i < s@.len() && s@.len() == s.len());
            let head = sub_vec(s, 0, i);
            let tail: &[u8] = &s[i + 1..s.len()];
            assert(tail@ == s@.subrange(i + 1, s@.len() as int));
            let mut rest = split_on(tail, d);
            rest.insert(0, head);
            proof {
                assert(rest.deep_view() =~~= spec_split(s@, d));
            }
            rest
        },
        None => {
            let mut out: Vec<Vec<u8>> = Vec::new();
            out.push(slice_to_vec(s));
            proof {
                assert(out.deep_view() =~~= spec_split(s@, d));
            }
            out
        },
    }
}

/// Append every byte of `src` to `dst`.
pub fn push_all(dst: &mut Vec<u8>, src: &[u8])
    ensures
        final(dst)@ == old(dst)@ + src@,
{
    let mut i: usize = 0;
    while i < src.len()
        invariant
            i <= src@.len(),
            dst@ == old(dst)@ + src@.subrange(0, i as int),
        decreases src@.len() - i,
    {
        dst.push(src[i]);
        proof {
            assert(old(dst)@ + src@.subrange(0, i + 1) =~= (old(dst)@ + src@.subrange(0, i as int)).push(src@[i as int]));
        }
        i += 1;
    }
    proof {
        assert(src@.subrange(0, src@.len() as int) =~= src@);
    }
}

/// The pattern `pat` occurs in `s` at position `i`.
pub open spec fn matches_at(s: Seq<u8>, pat: Seq<u8>, i: int) -> bool {
    0 <= i && i + pat.len() <= s.len() && s.subrange(i, i + pat.len()) == pat
}

/// `i` is the first position where `pat` occurs in `s`.
pub open spec fn is_first_match(s: Seq<u8>, pat: Seq<u8>, i: int) -> bool {
    matches_at(s, pat, i) && forall|j: int| 0 <= j < i ==> !matches_at(s, pat, j)
}

/// The first position where `pat` occurs in `s`, if any.
pub open spec fn spec_find_sub(s: Seq<u8>, pat: Seq<u8>) -> Option<int> {
    if exists|i: int| is_first_match(s, pat, i) {
        Some(choose|i: int| is_first_match(s, pat, i))
    } else {
        None
    }
}

pub fn find_sub(s: &[u8], pat: &[u8]) -> (r: Option<usize>)
    requires
        pat@.len() >= 1,
    ensures
        match r {
            Some(i) => i + pat@.len() <= s@.len() && spec_find_sub(s@, pat@) == Some(i as int),
            None => spec_find_sub(s@, pat@) is None,
        },
{
    if pat.len() > s.len() {
        proof {
            if exists|w: int| is_first_match(s@, pat@, w) {
                let w = choose|w: int| is_first_match(s@, pat@, w);
            }
        }
        return None;
    }
    let last: usize = s.len() - pat.len();
    let mut i: usize = 0;
    while i <= last
        invariant
            i <= last + 1,
            last == s@.len() - pat@.len(),
            s@.len() <= usize::MAX,
            pat@.len() >= 1,
            forall|j: int| 0 <= j < i ==> !matches_at(s@, pat@, j),
        decreases last + 1 - i,
    {
        let window: &[u8] = &s[i..i + pat.len()];
        if bytes_eq(window, pat) {
            proof {
                assert(window@ == s@.subrange(i as int, i + pat@.len()));
                assert(matches_at(s@, pat@, i as int));
                assert(is_first_match(s@, pat@, i as int));
                let w = choose|w: int| is_first_match(s@, pat@, w);
                if w < i {
                    assert(!matches_at(s@, pat@, w));
                } else if w > i {
                    assert(!matches_at(s@, pat@, i as int));
                }
            }
            return Some(i);
        }
        proof {
            assert(window@ == s@.subrange(i as int, i + pat@.len()));
            assert(!matches_at(s@, pat@, i as int));
        }
        i += 1;
    }
    proof {
        if exists|w: int| is_first_match(s@, pat@, w) {
            let w = choose|w: int| is_first_match(s@, pat@, w);
            assert(matches_at(s@, pat@, w));
            assert(w <= last);
            assert(!matches_at(s@, pat@, w));
        }
    }
    None
}

/// ASCII whitespace, as trimmed from the ends of the kernel command line.
pub open spec fn is_ws(b: u8) -> bool {
    b == 32 || (9 <= b <= 13)
}

pub open spec fn spec_trim(s: Seq<u8>) -> Seq<u8>
    decreases s.len(),
{
    if s.len() > 0 && is_ws(s[0]) {
        spec_trim(s.drop_first())
    } else if s.len() > 0 && is_ws(s[s.len() - 1]) {
        spec_trim(s.drop_last())
    } else {
        s
    }
}

pub fn trim_ascii(s: &[u8]) -> (out: Vec<u8>)
    ensures
        out@ == spec_trim(s@),
{
    let mut lo: usize = 0;
    let mut hi: usize = s.len();
    proof {
        assert(s@.subrange(0, s@.len() as int) =~= s@);
    }
    while lo < hi && (s[lo] == 32 || (9 <= s[lo] && s[lo] <= 13))
        invariant
            0 <= lo <= hi <= s@.len(),
            spec_trim(s@) == spec_trim(s@.subrange(lo as int, hi as int)),
            hi == s@.len(),
        decreases hi - lo,
    {
        proof {
            assert(s@.subrange(lo as int, hi as int).drop_first() =~= s@.subrange(
                lo + 1,
                hi as int,
            ));
        }
        lo += 1;
    }
    while lo < hi && (s[hi - 1] == 32 || (9 <= s[hi - 1] && s[hi - 1] <= 13))
        invariant
            0 <= lo <= hi <= s@.len(),
            spec_trim(s@) == spec_trim(s@.subrange(lo as int, hi as int)),
            lo < hi ==> !is_ws(s@[lo as int]),
        decreases hi - lo,
    {
        proof {
            assert(s@.subrange(lo as int, hi as int).drop_last() =~= s@.subrange(
                lo as int,
                hi - 1,
            ));
        }
        hi -= 1;
    }
    proof {
        assert(spec_trim(s@.subrange(lo as int, hi as int)) == s@.subrange(lo as int, hi as int));
    }
    sub_vec(s, lo, hi)
}

} // verus!
