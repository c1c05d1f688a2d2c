//! The module alias table: glob patterns mapped to module names, with
//! once-per-alias dispatch.

use vstd::prelude::*;
use crate::bytes::{bytes_eq, find_byte, spec_find, spec_split, split_on, sub_vec};

verus! {

/// Membership in a character class body (the bytes between the
/// brackets, the closing bracket excluded): `a-b` spans a range
/// unless the `-` is the last byte, every other byte stands for
/// itself.
pub open spec fn spec_class_member(body: Seq<u8>, c: u8) -> bool
    decreases body.len(),
{
    if body.len() == 0 {
        false
    } else if body.len() >= 3 && body[1] == 45 {
        (body[0] <= c && c <= body[2]) || spec_class_member(body.skip(3), c)
    } else {
        body[0] == c || spec_class_member(body.skip(1), c)
    }
}

/// The index of the bracket closing the class a pattern starts with:
/// the first `]` after the first member, which may itself be `]`, and
/// after the optional leading `!`.
pub open spec fn spec_class_close(pat: Seq<u8>) -> Option<int> {
    let m0: int = if pat.len() >= 2 && pat[1] == 33 {
        2
    } else {
        1
    };
    if pat.len() <= m0 + 1 {
        None
    } else {
        match spec_find(pat.skip(m0 + 1), 93) {
            Some(i) => Some(m0 + 1 + i),
            None => None,
        }
    }
}

/// Kernel-style glob matching: `*` spans anything, `?` one byte, a
/// bracketed class one member byte, with `!` negating the class. A
/// class without its closing bracket makes the `[` a literal byte.
pub open spec fn spec_glob(pat: Seq<u8>, txt: Seq<u8>) -> bool
    decreases pat.len(), txt.len(),
{
    if pat.len() == 0 {
        txt.len() == 0
    } else if pat[0] == 42 {
        spec_glob(pat.drop_first(), txt) || (txt.len() > 0 && spec_glob(pat, txt.drop_first()))
    } else if pat[0] == 63 {
        txt.len() > 0 && spec_glob(pat.drop_first(), txt.drop_first())
    } else if pat[0] == 91 && spec_class_close(pat) is Some {
        let k = spec_class_close(pat).unwrap();
        let neg = pat[1] == 33;
        let body = pat.subrange(
            if neg {
                2
            } else {
                1
            },
            k,
        );
        txt.len() > 0 && (spec_class_member(body, txt[0]) != neg) && spec_glob(
            pat.skip(k + 1),
            txt.drop_first(),
        )
    } else {
        txt.len() > 0 && pat[0] == txt[0] && spec_glob(pat.drop_first(), txt.drop_first())
    }
}

proof fn lemma_class_close_bounds(pat: Seq<u8>)
    requires
        pat.len() > 0,
        spec_class_close(pat) is Some,
    ensures
        ({
            let k = spec_class_close(pat).unwrap();
            let m0: int = if pat.len() >= 2 && pat[1] == 33 {
                2
            } else {
                1
            };
            m0 + 1 <= k < pat.len() && pat[k] == 93
        }),
{
    let m0: int = if pat.len() >= 2 && pat[1] == 33 {
        2
    } else {
        1
    };
    let t = pat.skip(m0 + 1);
    match spec_find(t, 93) {
        Some(i) => {
            assert(crate::bytes::is_first_at(t, 93, choose|w: int|
                crate::bytes::is_first_at(t, 93, w)));
        },
        None => {},
    }
}

/// Membership in a class body.
fn class_member(body: &[u8], c: u8) -> (r: bool)
    ensures
        r == spec_class_member(body@, c),
    decreases body@.len(),
{
    if body.len() == 0 {
        false
    } else if body.len() >= 3 && body[1] == 45 {
        if body[0] <= c && c <= body[2] {
            true
        } else {
            let rest: &[u8] = &body[3..body.len()];
            assert(rest@ == body@.skip(3));
            class_member(rest, c)
        }
    } else {
        if body[0] == c {
            true
        } else {
            let rest: &[u8] = &body[1..body.len()];
            assert(rest@ == body@.skip(1));
            class_member(rest, c)
        }
    }
}

/// Kernel-style glob matching.
pub fn glob_match(pat: &[u8], txt: &[u8]) -> (r: bool)
    ensures
        r == spec_glob(pat@, txt@),
    decreases pat@.len(), txt@.len(), 1int,
{
    if pat.len() == 0 {
        txt.len() == 0
    } else if pat[0] == 42 {
        let p1: &[u8] = &pat[1..pat.len()];
        assert(p1@ == pat@.drop_first());
        if glob_match(p1, txt) {
            true
        } else if txt.len() > 0 {
            let t1: &[u8] = &txt[1..txt.len()];
            assert(t1@ == txt@.drop_first());
            glob_match(pat, t1)
        } else {
            false
        }
    } else if pat[0] == 63 {
        if txt.len() == 0 {
            false
        } else {
            let p1: &[u8] = &pat[1..pat.len()];
            let t1: &[u8] = &txt[1..txt.len()];
            assert(p1@ == pat@.drop_first());
            assert(t1@ == txt@.drop_first());
            glob_match(p1, t1)
        }
    } else if pat[0] == 91 {
        let m0: usize = if pat.len() >= 2 && pat[1] == 33 {
            2
        } else {
            1
        };
        if pat.len() <= m0 + 1 {
            assert(spec_class_close(pat@) is None);
            literal_step(pat, txt)
        } else {
            let t: &[u8] = &pat[m0 + 1..pat.len()];
            assert(t@ == pat@.skip(m0 + 1));
            match find_byte(t, 93) {
                Some(i) => {
                    let k: usize = m0 + 1 + i;
                    assert(spec_class_close(pat@) == Some(k as int));
                    proof {
                        lemma_class_close_bounds(pat@);
                    }
                    if txt.len() == 0 {
                        false
                    } else {
                        let neg = pat[1] == 33;
                        let body: &[u8] = &pat[if neg {
                            2
                        } else {
                            1
                        }..k];
                        assert(body@ == pat@.subrange(
                            if neg {
                                2int
                            } else {
                                1int
                            },
                            k as int,
                        ));
                        let hit = class_member(body, txt[0]);
                        if hit != neg {
                            let p1: &[u8] = &pat[k + 1..pat.len()];
                            let t1: &[u8] = &txt[1..txt.len()];
                            assert(p1@ == pat@.skip(k + 1));
                            assert(t1@ == txt@.drop_first());
                            glob_match(p1, t1)
                        } else {
                            false
                        }
                    }
                },
                None => {
                    assert(spec_class_close(pat@) is None);
                    literal_step(pat, txt)
                },
            }
        }
    } else {
        literal_step(pat, txt)
    }
}

/// Match the first pattern byte literally, then the rest.
fn literal_step(pat: &[u8], txt: &[u8]) -> (r: bool)
    requires
        pat@.len() > 0,
        pat@[0] != 42,
        pat@[0] != 63,
        pat@[0] == 91 ==> spec_class_close(pat@) is None,
    ensures
        r == spec_glob(pat@, txt@),
    decreases pat@.len(), txt@.len(), 0int,
{
    if txt.len() == 0 {
        false
    } else if pat[0] == txt[0] {
        let p1: &[u8] = &pat[1..pat.len()];
        let t1: &[u8] = &txt[1..txt.len()];
        assert(p1@ == pat@.drop_first());
        assert(t1@ == txt@.drop_first());
        glob_match(p1, t1)
    } else {
        false
    }
}

/// One alias pattern and the module it loads.
#[derive(Debug, Clone, PartialEq, Eq)]
pub struct ModAlias {
    pub pattern: Vec<u8>,
    pub module: Vec<u8>,
}

impl ModAlias {
    /// Pair a pattern with the module to load when a device alias
    /// matches it.
    pub fn new(pattern: Vec<u8>, module: Vec<u8>) -> (r: ModAlias)
        ensures
            r.pattern == pattern,
            r.module == module,
    {
        ModAlias { pattern, module }
    }
}

/// The pairs of an alias table as ghost values.
pub open spec fn spec_alias_pairs(es: Seq<ModAlias>) -> Seq<(Seq<u8>, Seq<u8>)> {
    Seq::new(es.len(), |i: int| (es[i].pattern@, es[i].module@))
}

/// One line parsed: the bytes before the first space, and the bytes
/// after it.
pub open spec fn spec_parse_alias_line(line: Seq<u8>) -> Option<(Seq<u8>, Seq<u8>)> {
    match spec_find(line, 32) {
        Some(i) => Some((line.subrange(0, i), line.skip(i + 1))),
        None => None,
    }
}

/// A whole alias file parsed: one `PATTERN MODULE` pair per line, a
/// final newline allowed; any line without a space rejects the file.
pub open spec fn spec_parse_alias_file(content: Seq<u8>) -> Option<Seq<(Seq<u8>, Seq<u8>)>>
    decreases content.len(),
{
    spec_parse_lines(spec_alias_lines(content))
}

/// The lines of the file, a trailing final newline dropped.
pub open spec fn spec_alias_lines(content: Seq<u8>) -> Seq<Seq<u8>> {
    let ls = spec_split(content, 10);
    if ls.len() > 0 && ls.last().len() == 0 {
        ls.drop_last()
    } else {
        ls
    }
}

pub open spec fn spec_parse_lines(ls: Seq<Seq<u8>>) -> Option<Seq<(Seq<u8>, Seq<u8>)>>
    decreases ls.len(),
{
    if ls.len() == 0 {
        Some(Seq::empty())
    } else {
        match (spec_parse_lines(ls.drop_last()), spec_parse_alias_line(ls.last())) {
            (Some(ps), Some(p)) => Some(ps.push(p)),
            _ => None,
        }
    }
}

/// The alias table, with the set of alias strings already dispatched.
#[derive(Debug, Clone, PartialEq, Eq)]
pub struct ModAliases {
    pub aliases: Vec<ModAlias>,
    pub processed: Vec<Vec<u8>>,
}

/// The modules whose pattern matches the alias, in table order.
pub open spec fn spec_matching_modules(es: Seq<(Seq<u8>, Seq<u8>)>, alias: Seq<u8>) -> Seq<Seq<u8>>
    decreases es.len(),
{
    if es.len() == 0 {
        Seq::empty()
    } else {
        let rest = spec_matching_modules(es.drop_first(), alias);
        if spec_glob(es[0].0, alias) {
            seq![es[0].1] + rest
        } else {
            rest
        }
    }
}

proof fn lemma_matching_modules_snoc(es: Seq<(Seq<u8>, Seq<u8>)>, e: (Seq<u8>, Seq<u8>), alias: Seq<u8>)
    ensures
        spec_matching_modules(es.push(e), alias) == if spec_glob(e.0, alias) {
            spec_matching_modules(es, alias).push(e.1)
        } else {
            spec_matching_modules(es, alias)
        },
    decreases es.len(),
{
    reveal_with_fuel(spec_matching_modules, 3);
    if es.len() == 0 {
        assert(es.push(e)[0] == e);
        assert(es.push(e).drop_first() =~= Seq::<(Seq<u8>, Seq<u8>)>::empty());
        if spec_glob(e.0, alias) {
            assert(seq![e.1] + Seq::<Seq<u8>>::empty() =~= Seq::<Seq<u8>>::empty().push(e.1));
        }
    } else {
        assert(es.push(e)[0] == es[0]);
        assert(es.push(e).drop_first() =~= es.drop_first().push(e));
        lemma_matching_modules_snoc(es.drop_first(), e, alias);
        if spec_glob(e.0, alias) && spec_glob(es[0].0, alias) {
            assert(seq![es[0].1] + spec_matching_modules(es.drop_first(), alias).push(e.1) =~= (
            seq![es[0].1] + spec_matching_modules(es.drop_first(), alias)).push(e.1));
        }
    }
}

impl ModAliases {
    /// An empty table.
    pub fn new() -> (r: ModAliases)
        ensures
            r.aliases@ == Seq::<ModAlias>::empty(),
            r.processed@ == Seq::<Vec<u8>>::empty(),
    {
        ModAliases { aliases: Vec::new(), processed: Vec::new() }
    }

    /// Append more aliases to the table.
    pub fn extend(&mut self, items: Vec<ModAlias>)
        ensures
            final(self).aliases@ == old(self).aliases@ + items@,
            final(self).processed == old(self).processed,
    {
        let mut items = items;
        self.aliases.append(&mut items);
    }

    /// Parse the alias file: one `PATTERN MODULE` pair per line.
    /// `None` means a malformed line.
    pub fn from_bytes(content: &[u8]) -> (r: Option<ModAliases>)
        ensures
            match r {
                Some(t) => {
                    &&& spec_parse_alias_file(content@) == Some(spec_alias_pairs(t.aliases@))
                    &&& t.processed@ == Seq::<Vec<u8>>::empty()
                },
                None => spec_parse_alias_file(content@) is None,
            },
    {
        let lines = split_on(content, 10);
        let ghost all = spec_alias_lines(content@);
        let n = if lines.len() > 0 && lines[lines.len() - 1].len() == 0 {
            lines.len() - 1
        } else {
            lines.len()
        };
        proof {
            assert(lines.deep_view().len() == lines@.len());
            if lines.len() > 0 && lines@[lines@.len() - 1]@.len() == 0 {
                assert(all =~= lines.deep_view().drop_last());
            } else {
                assert(all == lines.deep_view());
            }
            assert(all.len() == n);
            assert(forall|j: int| 0 <= j < n ==> all[j] == lines.deep_view()[j]);
        }
        let mut aliases: Vec<ModAlias> = Vec::new();
        let mut i: usize = 0;
        while i < n
            invariant
                i <= n,
                n <= lines@.len(),
                all == spec_alias_lines(content@),
                all.len() == n,
                forall|j: int| 0 <= j < n ==> all[j] == lines.deep_view()[j],
                spec_parse_lines(all.subrange(0, i as int)) == Some(
                    spec_alias_pairs(aliases@),
                ),
            decreases n - i,
        {
            proof {
                assert(all.subrange(0, i + 1).drop_last() =~= all.subrange(0, i as int));
                assert(all.subrange(0, i + 1).last() == all[i as int]);
            }
            let line: &[u8] = lines[i].as_slice();
            assert(line@ == all[i as int]);
            match find_byte(line, 32) {
                Some(p) => {
                    assert(p < line@.len() && line@.len() == line.len());
                    let pattern = sub_vec(line, 0, p);
                    let module = sub_vec(line, p + 1, line.len());
                    let ghost prev = aliases@;
                    aliases.push(ModAlias { pattern, module });
                    proof {
                        assert(spec_alias_pairs(aliases@) =~= spec_alias_pairs(prev).push((
                            line@.subrange(0, p as int),
                            line@.skip(p + 1),
                        )));
                    }
                },
                None => {
                    proof {
                        lemma_parse_lines_error(all, i as int);
                    }
                    return None;
                },
            }
            i += 1;
        }
        proof {
            assert(all.subrange(0, n as int) =~= all);
        }
        Some(ModAliases { aliases, processed: Vec::new() })
    }

    /// Dispatch an alias: the first time a given alias string is
    /// seen, every module whose pattern matches it is appended to
    /// `out`, in table order; any later call with the same alias
    /// appends nothing.
    pub fn match_alias(&mut self, alias: &[u8], out: &mut Vec<Vec<u8>>)
        ensures
            old(self).processed.deep_view().contains(alias@) ==> {
                &&& *final(self) == *old(self)
                &&& *final(out) == *old(out)
            },
            !old(self).processed.deep_view().contains(alias@) ==> {
                &&& final(out).deep_view() == old(out).deep_view() + spec_matching_modules(
                    spec_alias_pairs(old(self).aliases@),
                    alias@,
                )
                &&& final(self).aliases == old(self).aliases
                &&& final(self).processed.deep_view() == old(self).processed.deep_view().push(
                    alias@,
                )
            },
    {
        let mut seen = false;
        let mut j: usize = 0;
        while j < self.processed.len()
            invariant
                j <= self.processed@.len(),
                *self == *old(self),
                *out == *old(out),
                seen == exists|k: int|
                    0 <= k < j && old(self).processed.deep_view()[k] == alias@,
            decreases self.processed@.len() - j,
        {
            let hit = bytes_eq(self.processed[j].as_slice(), alias);
            proof {
                assert(self.processed.deep_view()[j as int] == self.processed@[j as int]@);
            }
            if hit {
                seen = true;
            }
            j += 1;
        }
        if seen {
            proof {
                let k = choose|k: int|
                    0 <= k < old(self).processed@.len() && old(self).processed.deep_view()[k]
                        == alias@;
            }
            return ;
        }
        proof {
            assert(!old(self).processed.deep_view().contains(alias@));
        }
        let ghost pairs = spec_alias_pairs(self.aliases@);
        let mut i: usize = 0;
        while i < self.aliases.len()
            invariant
                i <= self.aliases@.len(),
                *self == *old(self),
                pairs == spec_alias_pairs(self.aliases@),
                pairs.len() == self.aliases@.len(),
                out.deep_view() == old(out).deep_view() + spec_matching_modules(
                    pairs.subrange(0, i as int),
                    alias@,
                ),
            decreases self.aliases@.len() - i,
        {
            proof {
                assert(pairs.subrange(0, i + 1) =~= pairs.subrange(0, i as int).push(
                    pairs[i as int],
                ));
                lemma_matching_modules_snoc(pairs.subrange(0, i as int), pairs[i as int], alias@);
            }
            let e = &self.aliases[i];
            if glob_match(e.pattern.as_slice(), alias) {
                proof {
                    assert(e.pattern@ == pairs[i as int].0);
                    assert(spec_glob(pairs[i as int].0, alias@));
                }
                let m = sub_vec(e.module.as_slice(), 0, e.module.len());
                proof {
                    assert(m@ =~= pairs[i as int].1);
                }
                let ghost prevd = out.deep_view();
                out.push(m);
                proof {
                    assert(out.deep_view() =~~= prevd.push(m@));
                    assert(spec_matching_modules(pairs.subrange(0, i + 1), alias@)
                        == spec_matching_modules(pairs.subrange(0, i as int), alias@).push(
                        pairs[i as int].1,
                    ));
                    assert(prevd.push(m@) =~= old(out).deep_view() + spec_matching_modules(
                        pairs.subrange(0, i + 1),
                        alias@,
                    ));
                }
            }
            i += 1;
        }
        proof {
            assert(pairs.subrange(0, pairs.len() as int) =~= pairs);
        }
        self.processed.push(sub_vec(alias, 0, alias.len()));
        proof {
            assert(final(self).processed.deep_view() =~~= old(self).processed.deep_view().push(
                alias@,
            ));
        }
    }
}

/// A line without a space rejects the whole file.
proof fn lemma_parse_lines_error(ls: Seq<Seq<u8>>, i: int)
    requires
        0 <= i < ls.len(),
        spec_parse_alias_line(ls[i]) is None,
    ensures
        spec_parse_lines(ls.subrange(0, ls.len() as int)) is None,
        spec_parse_lines(ls) is None,
    decreases ls.len(),
{
    assert(ls.subrange(0, ls.len() as int) =~= ls);
    if i == ls.len() - 1 {
        assert(spec_parse_lines(ls) is None);
    } else {
        lemma_parse_lines_error(ls.drop_last(), i);
    }
}

} // verus!
