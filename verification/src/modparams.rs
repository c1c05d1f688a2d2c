//! Kernel module parameters gathered from the command line.
//!
//! A `<module>.<key>=<value>` argument adds `key=value` to the list of
//! the named module. Module names are normalized first: the command
//! line spells them with dashes, the kernel with underscores.

use vstd::prelude::*;
use crate::bytes::{bytes_eq, push_all};

verus! {

/// The parameters of one module, in arrival order.
#[derive(Debug, Clone, PartialEq, Eq)]
pub struct ParamEntry {
    pub module: Vec<u8>,
    pub values: Vec<Vec<u8>>,
}

impl View for ParamEntry {
    type V = (Seq<u8>, Seq<Seq<u8>>);

    open spec fn view(&self) -> (Seq<u8>, Seq<Seq<u8>>) {
        (self.module@, self.values.deep_view())
    }
}

/// Dashes become underscores; nothing else changes.
pub open spec fn spec_normalize(s: Seq<u8>) -> Seq<u8> {
    s.map_values(|b: u8| if b == 45 { 95u8 } else { b })
}

/// Normalizing twice is normalizing once.
pub proof fn lemma_normalize_idempotent(s: Seq<u8>)
    ensures
        spec_normalize(spec_normalize(s)) == spec_normalize(s),
{
    assert(spec_normalize(spec_normalize(s)) =~= spec_normalize(s));
}

/// The value list of the first entry with key `k`.
pub open spec fn spec_lookup(es: Seq<(Seq<u8>, Seq<Seq<u8>>)>, k: Seq<u8>) -> Option<Seq<Seq<u8>>>
    decreases es.len(),
{
    if es.len() == 0 {
        None
    } else if es[0].0 == k {
        Some(es[0].1)
    } else {
        spec_lookup(es.drop_first(), k)
    }
}

/// The index of the first entry with key `k`.
pub open spec fn spec_find_key(es: Seq<(Seq<u8>, Seq<Seq<u8>>)>, k: Seq<u8>) -> Option<int>
    decreases es.len(),
{
    if es.len() == 0 {
        None
    } else if es[0].0 == k {
        Some(0)
    } else {
        match spec_find_key(es.drop_first(), k) {
            Some(i) => Some(i + 1),
            None => None,
        }
    }
}

/// What inserting `key=value` under module `m` does to the entries.
pub open spec fn spec_insert(
    es: Seq<(Seq<u8>, Seq<Seq<u8>>)>,
    m: Seq<u8>,
    value: Seq<u8>,
) -> Seq<(Seq<u8>, Seq<Seq<u8>>)> {
    let k = spec_normalize(m);
    match spec_find_key(es, k) {
        Some(i) => es.update(i, (es[i].0, es[i].1.push(value))),
        None => es.push((k, seq![value])),
    }
}

/// A found key's index is in range, carries the key, and is the first.
pub proof fn lemma_find_key_props(es: Seq<(Seq<u8>, Seq<Seq<u8>>)>, k: Seq<u8>)
    ensures
        match spec_find_key(es, k) {
            Some(i) => 0 <= i < es.len() && es[i].0 == k && forall|j: int|
                0 <= j < i ==> es[j].0 != k,
            None => forall|j: int| 0 <= j < es.len() ==> es[j].0 != k,
        },
    decreases es.len(),
{
    if es.len() > 0 && es[0].0 != k {
        let t = es.drop_first();
        lemma_find_key_props(t, k);
        match spec_find_key(t, k) {
            Some(i) => {
                assert(t[i] == es[i + 1]);
                assert forall|j: int| 0 <= j < i + 1 implies es[j].0 != k by {
                    if j > 0 {
                        assert(t[j - 1] == es[j]);
                    }
                }
            },
            None => {
                assert forall|j: int| 0 <= j < es.len() implies es[j].0 != k by {
                    if j > 0 {
                        assert(t[j - 1] == es[j]);
                    }
                }
            },
        }
    }
}

/// An inserted value is observed by a later lookup exactly when the
/// two module names normalize to the same name; every other lookup is
/// unchanged.
pub proof fn lemma_insert_then_lookup(
    es: Seq<(Seq<u8>, Seq<Seq<u8>>)>,
    m1: Seq<u8>,
    m2: Seq<u8>,
    value: Seq<u8>,
)
    ensures
        spec_normalize(m1) == spec_normalize(m2) ==> {
            let r = spec_lookup(spec_insert(es, m1, value), spec_normalize(m2));
            &&& r is Some
            &&& r.unwrap().len() >= 1
            &&& r.unwrap().last() == value
        },
        spec_normalize(m1) != spec_normalize(m2) ==> spec_lookup(
            spec_insert(es, m1, value),
            spec_normalize(m2),
        ) == spec_lookup(es, spec_normalize(m2)),
    decreases es.len(),
{
    let k1 = spec_normalize(m1);
    let k2 = spec_normalize(m2);
    let es2 = spec_insert(es, m1, value);
    if es.len() == 0 {
        assert(es2 =~= seq![(k1, seq![value])]);
        if k1 == k2 {
            assert(spec_lookup(es2, k2) == Some(seq![value]));
        } else {
            assert(spec_lookup(es2, k2) == spec_lookup(es2.drop_first(), k2));
            assert(es2.drop_first() =~= Seq::<(Seq<u8>, Seq<Seq<u8>>)>::empty());
        }
    } else if es[0].0 == k1 {
        assert(spec_find_key(es, k1) == Some(0int));
        assert(es2 == es.update(0, (es[0].0, es[0].1.push(value))));
        assert(es2[0].0 == k1);
        if k1 == k2 {
            assert(spec_lookup(es2, k2) == Some(es[0].1.push(value)));
        } else {
            assert(es2.drop_first() =~= es.drop_first());
        }
    } else {
        let t = es.drop_first();
        lemma_insert_then_lookup(t, m1, m2, value);
        lemma_find_key_props(es, k1);
        lemma_find_key_props(t, k1);
        match spec_find_key(t, k1) {
            Some(i) => {
                assert(spec_find_key(es, k1) == Some(i + 1));
                assert(es2 == es.update(i + 1, (es[i + 1].0, es[i + 1].1.push(value))));
                assert(es2[0] == es[0]);
                assert(es2.drop_first() =~= spec_insert(t, m1, value)) by {
                    assert(t[i] == es[i + 1]);
                    assert(es2.drop_first() =~= t.update(i, (t[i].0, t[i].1.push(value))));
                }
            },
            None => {
                assert(spec_find_key(es, k1) is None);
                assert(es2 == es.push((k1, seq![value])));
                assert(es2[0] == es[0]);
                assert(es2.drop_first() =~= spec_insert(t, m1, value)) by {
                    assert(es2.drop_first() =~= t.push((k1, seq![value])));
                }
            },
        }
        if k1 == k2 {
            assert(es2[0].0 != k2);
            assert(spec_lookup(es2, k2) == spec_lookup(spec_insert(t, m1, value), k2));
        } else {
            if es[0].0 == k2 {
                assert(spec_lookup(es2, k2) == Some(es[0].1));
                assert(spec_lookup(es, k2) == Some(es[0].1));
            } else {
                assert(spec_lookup(es2, k2) == spec_lookup(spec_insert(t, m1, value), k2));
                assert(spec_lookup(es, k2) == spec_lookup(t, k2));
            }
        }
    }
}

/// Parameters for kernel module initialization, keyed by normalized
/// module name, each module's list in arrival order.
#[derive(Debug, Clone, PartialEq, Eq)]
pub struct ModParams {
    entries: Vec<ParamEntry>,
}

impl View for ModParams {
    type V = Seq<(Seq<u8>, Seq<Seq<u8>>)>;

    closed spec fn view(&self) -> Seq<(Seq<u8>, Seq<Seq<u8>>)> {
        Seq::new(self.entries@.len(), |i: int| self.entries@[i]@)
    }
}

impl ModParams {
    /// No parameters yet.
    pub fn new() -> (r: ModParams)
        ensures
            r@ == Seq::<(Seq<u8>, Seq<Seq<u8>>)>::empty(),
    {
        let r = ModParams { entries: Vec::new() };
        proof {
            assert(r@ =~= Seq::<(Seq<u8>, Seq<Seq<u8>>)>::empty());
        }
        r
    }

    /// Dashes become underscores; nothing else changes.
    pub fn normalize_module(module: &[u8]) -> (out: Vec<u8>)
        ensures
            out@ == spec_normalize(module@),
    {
        let mut out: Vec<u8> = Vec::new();
        let mut i: usize = 0;
        while i < module.len()
            invariant
                i <= module@.len(),
                out@ == spec_normalize(module@.subrange(0, i as int)),
            decreases module@.len() - i,
        {
            let b = module[i];
            if b == 45 {
                out.push(95);
            } else {
                out.push(b);
            }
            proof {
                assert(spec_normalize(module@.subrange(0, i + 1)) =~= spec_normalize(
                    module@.subrange(0, i as int),
                ).push(if module@[i as int] == 45 {
                    95u8
                } else {
                    module@[i as int]
                }));
            }
            i += 1;
        }
        proof {
            assert(module@.subrange(0, module@.len() as int) =~= module@);
        }
        out
    }

    /// The parameters recorded for `module`, if any.
    pub fn get_params(&self, module: &[u8]) -> (r: Option<&Vec<Vec<u8>>>)
        ensures
            match r {
                Some(vs) => spec_lookup(self@, spec_normalize(module@)) == Some(vs.deep_view()),
                None => spec_lookup(self@, spec_normalize(module@)) is None,
            },
    {
        let key = Self::normalize_module(module);
        let mut i: usize = 0;
        while i < self.entries.len()
            invariant
                i <= self.entries@.len(),
                key@ == spec_normalize(module@),
                forall|j: int| 0 <= j < i ==> self@[j].0 != key@,
            decreases self.entries@.len() - i,
        {
            let e = &self.entries[i];
            if bytes_eq(e.module.as_slice(), key.as_slice()) {
                proof {
                    lemma_lookup_at(self@, key@, i as int);
                }
                return Some(&e.values);
            }
            i += 1;
        }
        proof {
            lemma_lookup_none(self@, key@);
        }
        None
    }

    /// Record `param=args` for `module`.
    pub fn insert(&mut self, module: &[u8], param: &[u8], args: &[u8])
        ensures
            final(self)@ == spec_insert(old(self)@, module@, param@ + seq![61u8] + args@),
    {
        let key = Self::normalize_module(module);
        let mut value: Vec<u8> = Vec::new();
        push_all(&mut value, param);
        value.push(61);
        push_all(&mut value, args);
        let ghost v = param@ + seq![61u8] + args@;
        proof {
            assert(value@ =~= v);
        }
        let mut i: usize = 0;
        while i < self.entries.len()
            invariant
                i <= self.entries@.len(),
                key@ == spec_normalize(module@),
                value@ == v,
                v == param@ + seq![61u8] + args@,
                self@ == old(self)@,
                self.entries@.len() == self@.len(),
                forall|j: int| 0 <= j < i ==> self@[j].0 != key@,
            decreases self.entries@.len() - i,
        {
            let found = {
                let e = &self.entries[i];
                bytes_eq(e.module.as_slice(), key.as_slice())
            };
            if found {
                proof {
                    lemma_find_key_at(self@, key@, i as int);
                }
                let ghost oldes = self@;
                let ghost oldentries = self.entries@;
                let mut e = self.entries.remove(i);
                e.values.push(value);
                self.entries.insert(i, e);
                proof {
                    assert(self.entries@ =~= oldentries.update(
                        i as int,
                        ParamEntry { module: oldentries[i as int].module, values: e.values },
                    ));
                    let target = oldes.update(i as int, (oldes[i as int].0, oldes[i as int]
                        .1.push(v)));
                    assert forall|k: int| 0 <= k < self@.len() implies self@[k] == target[k] by {
                        if k == i {
                            assert(e.values.deep_view() =~~= oldes[i as int].1.push(v));
                        }
                    }
                    assert(self@ =~= target);
                    assert(spec_insert(oldes, module@, v) == target);
                }
                return ;
            }
            i += 1;
        }
        proof {
            lemma_find_key_none(self@, key@);
        }
        let ghost oldes = self@;
        let ghost v = param@ + seq![61u8] + args@;
        let ghost keyv = key@;
        let mut values: Vec<Vec<u8>> = Vec::new();
        values.push(value);
        proof {
            assert(values.deep_view() =~~= seq![v]);
        }
        self.entries.push(ParamEntry { module: key, values });
        proof {
            let target = oldes.push((keyv, seq![v]));
            assert forall|k: int| 0 <= k < self@.len() implies self@[k] == target[k] by {
            }
            assert(self@ =~= target);
            assert(spec_insert(oldes, module@, v) == target);
        }
    }
}

/// If the first `i` keys differ from `k` and entry `i` has key `k`,
/// the lookup stops at entry `i`.
pub proof fn lemma_lookup_at(es: Seq<(Seq<u8>, Seq<Seq<u8>>)>, k: Seq<u8>, i: int)
    requires
        0 <= i < es.len(),
        es[i].0 == k,
        forall|j: int| 0 <= j < i ==> es[j].0 != k,
    ensures
        spec_lookup(es, k) == Some(es[i].1),
        spec_find_key(es, k) == Some(i),
    decreases es.len(),
{
    if i > 0 {
        lemma_lookup_at(es.drop_first(), k, i - 1);
    }
}

/// If no key equals `k`, the lookup fails.
pub proof fn lemma_lookup_none(es: Seq<(Seq<u8>, Seq<Seq<u8>>)>, k: Seq<u8>)
    requires
        forall|j: int| 0 <= j < es.len() ==> es[j].0 != k,
    ensures
        spec_lookup(es, k) is None,
        spec_find_key(es, k) is None,
    decreases es.len(),
{
    if es.len() > 0 {
        lemma_lookup_none(es.drop_first(), k);
    }
}

proof fn lemma_find_key_at(es: Seq<(Seq<u8>, Seq<Seq<u8>>)>, k: Seq<u8>, i: int)
    requires
        0 <= i < es.len(),
        es[i].0 == k,
        forall|j: int| 0 <= j < i ==> es[j].0 != k,
    ensures
        spec_find_key(es, k) == Some(i),
{
    lemma_lookup_at(es, k, i);
}

proof fn lemma_find_key_none(es: Seq<(Seq<u8>, Seq<Seq<u8>>)>, k: Seq<u8>)
    requires
        forall|j: int| 0 <= j < es.len() ==> es[j].0 != k,
    ensures
        spec_find_key(es, k) is None,
{
    lemma_lookup_none(es, k);
}

} // verus!
