//! The concurrent module loader's ledger and its decisions.
//!
//! The ledger records which modules are loaded and which are being
//! loaded, and every decision is taken against it: whether a request
//! spawns a worker, joins an existing load, or is skipped. The process
//! around the library holds the ledger under its one mutex, runs one
//! worker per spawn command, and maps the completion token numbers to
//! its wait-group handles.

use vstd::prelude::*;
use crate::bytes::{bytes_eq, push_all, sub_vec};
use crate::config::InitramfsMetadata;

verus! {

/// A module being loaded and the completion tokens waiting on it.
#[derive(Debug, Clone, PartialEq, Eq)]
pub struct LoadingEntry {
    pub module: Vec<u8>,
    pub tokens: Vec<u64>,
}

/// An order to start one worker: wait for `deps_token`, load
/// `module`, then complete it under `caller_token`.
#[derive(Debug, Clone, PartialEq, Eq)]
pub struct SpawnCmd {
    pub module: Vec<u8>,
    pub deps_token: u64,
    pub caller_token: u64,
}

/// What completing one module yields: the tokens to release, the
/// post-dependency workers to start, and — when the post-dependency
/// chain ran past the depth bound — the error that cut it short.
#[derive(Debug, Clone, PartialEq, Eq)]
pub struct Completion {
    pub released: Vec<u64>,
    pub spawns: Vec<SpawnCmd>,
    pub post_dep_error: Option<LoaderError>,
}

/// Why a load request was refused.
#[derive(Debug, Clone, Copy, PartialEq, Eq, Structural)]
pub enum LoaderError {
    /// The dependency chain is deeper than the given bound; the
    /// dependency graph is taken to be cyclic.
    DependencyTooDeep,
    /// A completed module was not in the loading table.
    NotLoading,
}

/// The modules recorded as loaded.
pub open spec fn spec_loaded(l: ModLoading) -> Seq<Seq<u8>> {
    l.loaded.deep_view()
}

/// Whether a module is recorded as being loaded.
pub open spec fn spec_is_loading(l: ModLoading, m: Seq<u8>) -> bool {
    exists|i: int| 0 <= i < l.loading@.len() && l.loading@[i].module@ == m
}

/// Whether a token waits on a module being loaded.
pub open spec fn spec_token_waits(l: ModLoading, m: Seq<u8>, t: u64) -> bool {
    exists|i: int|
        0 <= i < l.loading@.len() && l.loading@[i].module@ == m && l.loading@[i].tokens@.contains(t)
}

/// The ledger invariant: no module is listed twice, no module is
/// both loaded and loading, and every module being loaded has at
/// least one completion token waiting on it.
pub open spec fn spec_ledger_wf(l: ModLoading) -> bool {
    &&& forall|i: int, j: int|
        0 <= i < j < l.loading@.len() ==> l.loading@[i].module@ != l.loading@[j].module@
    &&& forall|i: int, j: int|
        0 <= i < j < l.loaded@.len() ==> l.loaded.deep_view()[i] != l.loaded.deep_view()[j]
    &&& forall|i: int|
        0 <= i < l.loading@.len() ==> !spec_loaded(l).contains(l.loading@[i].module@)
    &&& forall|i: int| 0 <= i < l.loading@.len() ==> l.loading@[i].tokens@.len() >= 1
}

/// A chain of modules, each listing the next among its
/// pre-dependencies.
pub open spec fn spec_dep_chain(meta: InitramfsMetadata, c: Seq<Seq<u8>>) -> bool {
    forall|i: int|
        #![trigger c[i]]
        0 <= i < c.len() - 1 ==> match crate::modparams::spec_lookup(
            crate::config::spec_dep_map(meta.deps@),
            c[i],
        ) {
            Some(ds) => ds.contains(c[i + 1]),
            None => false,
        }
}

/// The loader ledger: the two tables and the token counter.
#[derive(Debug, Clone, PartialEq, Eq)]
pub struct ModLoading {
    pub loaded: Vec<Vec<u8>>,
    pub loading: Vec<LoadingEntry>,
    pub next_token: u64,
}

impl ModLoading {
    /// A fresh ledger: nothing loaded, nothing loading.
    pub fn new() -> (r: ModLoading)
        ensures
            r.loaded@ == Seq::<Vec<u8>>::empty(),
            r.loading@ == Seq::<LoadingEntry>::empty(),
            spec_ledger_wf(r),
    {
        ModLoading { loaded: Vec::new(), loading: Vec::new(), next_token: 0 }
    }

    /// Whether a module is recorded as loaded.
    fn is_loaded(&self, module: &[u8]) -> (r: bool)
        ensures
            r == spec_loaded(*self).contains(module@),
    {
        let mut i: usize = 0;
        while i < self.loaded.len()
            invariant
                i <= self.loaded@.len(),
                forall|j: int| 0 <= j < i ==> self.loaded.deep_view()[j] != module@,
            decreases self.loaded@.len() - i,
        {
            let hit = bytes_eq(self.loaded[i].as_slice(), module);
            proof {
                assert(self.loaded.deep_view()[i as int] == self.loaded@[i as int]@);
            }
            if hit {
                assert(spec_loaded(*self)[i as int] == module@);
                return true;
            }
            i += 1;
        }
        assert(forall|j: int|
            0 <= j < spec_loaded(*self).len() ==> spec_loaded(*self)[j] != module@);
        false
    }

    /// The position of a module in the loading table.
    fn find_loading(&self, module: &[u8]) -> (r: Option<usize>)
        ensures
            match r {
                Some(i) => i < self.loading@.len() && self.loading@[i as int].module@ == module@,
                None => !spec_is_loading(*self, module@),
            },
    {
        let mut i: usize = 0;
        while i < self.loading.len()
            invariant
                i <= self.loading@.len(),
                forall|j: int| 0 <= j < i ==> self.loading@[j].module@ != module@,
            decreases self.loading@.len() - i,
        {
            if bytes_eq(self.loading[i].module.as_slice(), module) {
                return Some(i);
            }
            i += 1;
        }
        None
    }

    /// Take a fresh completion token number.
    fn fresh_token(&mut self) -> (t: u64)
        ensures
            final(self).loaded == old(self).loaded,
            final(self).loading == old(self).loading,
    {
        let t = self.next_token;
        self.next_token = if t == u64::MAX {
            t
        } else {
            t + 1
        };
        t
    }

    /// Load a set of modules: every requested module ends up loaded,
    /// already built in, or being loaded with the returned completion
    /// token attached; the spawn commands name the workers to start.
    /// A module is never spawned twice: nothing already loaded or
    /// loading is spawned again.
    pub fn load_modules(&mut self, meta: &InitramfsMetadata, modules: &Vec<Vec<u8>>, depth: u64) -> (r: Result<
        (u64, Vec<SpawnCmd>),
        LoaderError,
    >)
        requires
            spec_ledger_wf(*old(self)),
        ensures
            spec_ledger_wf(*final(self)),
            final(self).loaded == old(self).loaded,
            match r {
                Ok((token, spawns)) => {
                    &&& forall|m: Seq<u8>|
                        spec_is_loading(*old(self), m) ==> spec_is_loading(*final(self), m)
                    &&& forall|m: Seq<u8>, t: u64|
                        spec_token_waits(*old(self), m, t) ==> spec_token_waits(*final(self), m, t)
                    &&& forall|k: int|
                        0 <= k < spawns@.len() ==> !spec_is_loading(*old(self), spawns@[k].module@)
                            && !spec_loaded(*old(self)).contains(spawns@[k].module@)
                    &&& forall|k: int|
                        0 <= k < spawns@.len() ==> spec_is_loading(*final(self), spawns@[k].module@)
                    &&& forall|k: int, k2: int|
                        0 <= k < k2 < spawns@.len() ==> spawns@[k].module@ != spawns@[k2].module@
                    &&& forall|k: int|
                        #![trigger modules.deep_view()[k]]
                        0 <= k < modules@.len() ==> {
                            let m = modules.deep_view()[k];
                            meta.builtin.deep_view().contains(m) || spec_loaded(
                                *old(self),
                            ).contains(m) || spec_token_waits(*final(self), m, token)
                        }
                },
                Err(e) => e == LoaderError::DependencyTooDeep && exists|c: Seq<Seq<u8>>|
                    spec_dep_chain(*meta, c) && c.len() > depth,
            },
    {
        let token = self.fresh_token();
        let mut spawns: Vec<SpawnCmd> = Vec::new();
        match self.load_modules_unlocked(
            meta,
            modules,
            token,
            depth,
            &mut spawns,
            Ghost(Seq::empty()),
        ) {
            Ok(()) => Ok((token, spawns)),
            Err(e) => Err(e),
        }
    }

    /// The recursive enqueue under the ledger lock: skip what is
    /// loaded or built in, join what is loading, and spawn the rest,
    /// pre-dependencies first under a fresh token.
    fn load_modules_unlocked(
        &mut self,
        meta: &InitramfsMetadata,
        modules: &Vec<Vec<u8>>,
        token: u64,
        depth: u64,
        spawns: &mut Vec<SpawnCmd>,
        Ghost(chain): Ghost<Seq<Seq<u8>>>,
    ) -> (r: Result<(), LoaderError>)
        requires
            spec_ledger_wf(*old(self)),
            spec_dep_chain(*meta, chain),
            chain.len() > 0 ==> crate::modparams::spec_lookup(
                crate::config::spec_dep_map(meta.deps@),
                chain.last(),
            ) == Some(modules.deep_view()),
        ensures
            spec_ledger_wf(*final(self)),
            final(self).loaded == old(self).loaded,
            forall|m: Seq<u8>| spec_is_loading(*old(self), m) ==> spec_is_loading(*final(self), m),
            forall|m: Seq<u8>, t: u64|
                spec_token_waits(*old(self), m, t) ==> spec_token_waits(*final(self), m, t),
            final(spawns)@.len() >= old(spawns)@.len(),
            forall|k: int|
                0 <= k < old(spawns)@.len() ==> final(spawns)@[k] == old(spawns)@[k],
            forall|k: int|
                old(spawns)@.len() <= k < final(spawns)@.len() ==> !spec_is_loading(
                    *old(self),
                    final(spawns)@[k].module@,
                ) && !spec_loaded(*old(self)).contains(final(spawns)@[k].module@),
            forall|k: int|
                old(spawns)@.len() <= k < final(spawns)@.len() ==> spec_is_loading(
                    *final(self),
                    final(spawns)@[k].module@,
                ),
            forall|k: int, k2: int|
                old(spawns)@.len() <= k < k2 < final(spawns)@.len() ==> final(spawns)@[k].module@
                    != final(spawns)@[k2].module@,
            match r {
                Ok(()) => forall|k: int|
                    #![trigger modules.deep_view()[k]]
                    0 <= k < modules@.len() ==> {
                        let m = modules.deep_view()[k];
                        meta.builtin.deep_view().contains(m) || spec_loaded(*old(self)).contains(m)
                            || spec_token_waits(*final(self), m, token)
                    },
                Err(e) => e == LoaderError::DependencyTooDeep && exists|c: Seq<Seq<u8>>|
                    spec_dep_chain(*meta, c) && c.len() > chain.len() + depth,
            },
        decreases depth,
    {
        let mut i: usize = 0;
        let n = modules.len();
        while i < n
            invariant
                i <= n,
                n == modules@.len(),
                spec_dep_chain(*meta, chain),
                chain.len() > 0 ==> crate::modparams::spec_lookup(
                    crate::config::spec_dep_map(meta.deps@),
                    chain.last(),
                ) == Some(modules.deep_view()),
                spec_ledger_wf(*self),
                self.loaded == old(self).loaded,
                forall|m: Seq<u8>| spec_is_loading(*old(self), m) ==> spec_is_loading(*self, m),
                forall|m: Seq<u8>, t: u64|
                    spec_token_waits(*old(self), m, t) ==> spec_token_waits(*self, m, t),
                spawns@.len() >= old(spawns)@.len(),
                forall|k: int| 0 <= k < old(spawns)@.len() ==> spawns@[k] == old(spawns)@[k],
                forall|k: int|
                    old(spawns)@.len() <= k < spawns@.len() ==> !spec_is_loading(
                        *old(self),
                        spawns@[k].module@,
                    ) && !spec_loaded(*old(self)).contains(spawns@[k].module@),
                forall|k: int|
                    old(spawns)@.len() <= k < spawns@.len() ==> spec_is_loading(
                        *self,
                        spawns@[k].module@,
                    ),
                forall|k: int, k2: int|
                    old(spawns)@.len() <= k < k2 < spawns@.len() ==> spawns@[k].module@
                        != spawns@[k2].module@,
                forall|k: int|
                    #![trigger modules.deep_view()[k]]
                    0 <= k < i ==> {
                        let m = modules.deep_view()[k];
                        meta.builtin.deep_view().contains(m) || spec_loaded(*old(self)).contains(m)
                            || spec_token_waits(*self, m, token)
                    },
            decreases n - i,
        {
            let module: &[u8] = modules[i].as_slice();
            proof {
                assert(module@ =~= modules.deep_view()[i as int]);
            }
            let skip_it = self.is_loaded(module) || meta.is_builtin(module);
            if !skip_it {
                assert(!spec_loaded(*self).contains(module@));
                match self.find_loading(module) {
                    Some(j) => {
                        let ghost before = *self;
                        let mut entry = self.loading.remove(j);
                        let ghost oldtokens = entry.tokens@;
                        entry.tokens.push(token);
                        self.loading.insert(j, entry);
                        proof {
                            assert(self.loading@ =~= before.loading@.update(
                                j as int,
                                LoadingEntry {
                                    module: before.loading@[j as int].module,
                                    tokens: self.loading@[j as int].tokens,
                                },
                            ));
                            assert(self.loading@[j as int].module@ == before.loading@[
                            j as int].module@);
                            assert(self.loading@[j as int].tokens@ == before.loading@[
                            j as int].tokens@.push(token));
                            lemma_update_entry(before, *self, j as int, token);
                            assert(spec_token_waits(*self, module@, token));
                        }
                    },
                    None => {
                        if depth == 0 {
                            proof {
                                assert(modules.deep_view().contains(module@)) by {
                                    assert(modules.deep_view()[i as int] == module@);
                                }
                                lemma_chain_extends(*meta, chain, modules.deep_view(), module@);
                                assert(chain.push(module@).len() > chain.len() + depth);
                            }
                            return Err(LoaderError::DependencyTooDeep);
                        }
                        let mut tokens: Vec<u64> = Vec::new();
                        tokens.push(token);
                        let entry = LoadingEntry {
                            module: sub_vec(module, 0, module.len()),
                            tokens,
                        };
                        let ghost before = *self;
                        self.loading.push(entry);
                        proof {
                            assert(self.loading@.last().module@ =~= module@);
                            assert(self.loading@.last().tokens@ =~= seq![token]);
                            lemma_push_entry(before, *self, module@, token);
                            assert(spec_token_waits(*self, module@, token));
                        }
                        let deps_token = self.fresh_token();
                        let ghost mid = *self;
                        match meta.deps_of(module) {
                            Some(ds) => {
                                let ds2 = copy_modules(ds);
                                proof {
                                    assert(modules.deep_view().contains(module@)) by {
                                        assert(modules.deep_view()[i as int] == module@);
                                    }
                                    lemma_chain_extends(*meta, chain, modules.deep_view(), module@);
                                }
                                match self.load_modules_unlocked(
                                    meta,
                                    &ds2,
                                    deps_token,
                                    depth - 1,
                                    spawns,
                                    Ghost(chain.push(module@)),
                                ) {
                                    Ok(()) => {},
                                    Err(e) => {
                                        return Err(e);
                                    },
                                }
                            },
                            None => {},
                        }
                        assert(spec_is_loading(*self, module@));
                        assert(spec_token_waits(*self, module@, token));
                        let cmd = SpawnCmd {
                            module: sub_vec(module, 0, module.len()),
                            deps_token,
                            caller_token: token,
                        };
                        proof {
                            assert(cmd.module@ =~= module@);
                        }
                        spawns.push(cmd);
                        proof {
                            assert(spawns@.last().module@ == module@);
                        }
                    },
                }
            }
            i += 1;
        }
        Ok(())
    }

    /// A worker finished loading a module: take it out of the loading
    /// table, record it loaded, release every token that waited on
    /// it, and enqueue its post-dependencies under the worker's caller
    /// token.
    pub fn complete_module(
        &mut self,
        meta: &InitramfsMetadata,
        module: &[u8],
        caller_token: u64,
        depth: u64,
    ) -> (r: Result<Completion, LoaderError>)
        requires
            spec_ledger_wf(*old(self)),
        ensures
            spec_ledger_wf(*final(self)),
            match r {
                Ok(c) => {
                    &&& spec_is_loading(*old(self), module@)
                    &&& !spec_is_loading(*final(self), module@)
                    &&& spec_loaded(*final(self)).contains(module@)
                    &&& forall|t: u64|
                        c.released@.contains(t) <==> spec_token_waits(*old(self), module@, t)
                    &&& forall|m2: Seq<u8>|
                        spec_loaded(*old(self)).contains(m2) ==> spec_loaded(
                            *final(self),
                        ).contains(m2)
                    &&& forall|m2: Seq<u8>|
                        spec_is_loading(*old(self), m2) && m2 != module@ ==> spec_is_loading(
                            *final(self),
                            m2,
                        )
                    &&& forall|m2: Seq<u8>, t: u64|
                        spec_token_waits(*old(self), m2, t) && m2 != module@
                            ==> spec_token_waits(*final(self), m2, t)
                    &&& forall|k: int|
                        0 <= k < c.spawns@.len() ==> !spec_is_loading(
                            *old(self),
                            c.spawns@[k].module@,
                        ) && !spec_loaded(*old(self)).contains(c.spawns@[k].module@)
                            && c.spawns@[k].module@ != module@
                    &&& forall|k: int|
                        0 <= k < c.spawns@.len() ==> spec_is_loading(
                            *final(self),
                            c.spawns@[k].module@,
                        )
                    &&& forall|k: int, k2: int|
                        0 <= k < k2 < c.spawns@.len() ==> c.spawns@[k].module@
                            != c.spawns@[k2].module@
                    &&& match c.post_dep_error {
                        Some(e) => e == LoaderError::DependencyTooDeep && exists|
                            ch: Seq<Seq<u8>>,
                        |
                            spec_dep_chain(*meta, ch) && ch.len() > depth,
                        None => match crate::modparams::spec_lookup(
                            crate::config::spec_dep_map(meta.post_deps@),
                            module@,
                        ) {
                            Some(ds) => forall|k: int|
                                #![trigger ds[k]]
                                0 <= k < ds.len() ==> (meta.builtin.deep_view().contains(ds[k])
                                    || spec_loaded(*final(self)).contains(ds[k])
                                    || spec_token_waits(*final(self), ds[k], caller_token)),
                            None => c.spawns@.len() == 0,
                        },
                    }
                },
                Err(e) => {
                    &&& e == LoaderError::NotLoading
                    &&& !spec_is_loading(*old(self), module@)
                    &&& *final(self) == *old(self)
                },
            },
    {
        let j = match self.find_loading(module) {
            Some(j) => j,
            None => {
                return Err(LoaderError::NotLoading);
            },
        };
        let ghost before = *self;
        let entry = self.loading.remove(j);
        proof {
            lemma_remove_entry(before, *self, j as int);
        }
        let ghost mid = *self;
        self.loaded.push(sub_vec(module, 0, module.len()));
        proof {
            assert(self.loaded@.last()@ =~= module@);
            lemma_loaded_push(mid, *self, module@);
        }
        let released = entry.tokens;
        proof {
            assert forall|t: u64|
                released@.contains(t) <==> spec_token_waits(before, module@, t) by {
                if released@.contains(t) {
                    assert(spec_token_waits(before, module@, t));
                }
                if spec_token_waits(before, module@, t) {
                    let i = choose|i: int|
                        0 <= i < before.loading@.len() && before.loading@[i].module@ == module@
                            && before.loading@[i].tokens@.contains(t);
                    assert(i == j);
                }
            }
        }
        let mut spawns: Vec<SpawnCmd> = Vec::new();
        let post = match meta.post_deps_of(module) {
            Some(ds) => Some(copy_modules(ds)),
            None => None,
        };
        let mut post_dep_error: Option<LoaderError> = None;
        match post {
            Some(ds) => {
                match self.load_modules_unlocked(
                    meta,
                    &ds,
                    caller_token,
                    depth,
                    &mut spawns,
                    Ghost(Seq::empty()),
                ) {
                    Ok(()) => {},
                    Err(e) => {
                        post_dep_error = Some(e);
                    },
                }
            },
            None => {},
        }
        assert(spec_loaded(*self).contains(module@));
        Ok(Completion { released, spawns, post_dep_error })
    }
}

/// The items joined with single separators between them.
pub open spec fn spec_join(items: Seq<Seq<u8>>, sep: u8) -> Seq<u8>
    decreases items.len(),
{
    if items.len() == 0 {
        Seq::empty()
    } else if items.len() == 1 {
        items[0]
    } else {
        items[0] + seq![sep] + spec_join(items.drop_first(), sep)
    }
}

/// The parameter string handed to the kernel for one module: the
/// configured option string, a space, then the command line
/// parameters joined with spaces.
pub open spec fn spec_finit_params(opts: Seq<u8>, params: Seq<Seq<u8>>) -> Seq<u8> {
    opts + seq![32u8] + spec_join(params, 32)
}

proof fn lemma_join_snoc(items: Seq<Seq<u8>>, item: Seq<u8>, sep: u8)
    ensures
        spec_join(items.push(item), sep) == if items.len() == 0 {
            item
        } else {
            spec_join(items, sep) + seq![sep] + item
        },
    decreases items.len(),
{
    reveal_with_fuel(spec_join, 4);
    if items.len() == 0 {
        assert(items.push(item)[0] == item);
    } else if items.len() == 1 {
        assert(items.push(item)[0] == items[0]);
        assert(items.push(item).drop_first() =~= seq![item]);
        assert(spec_join(seq![item], sep) == item);
    } else {
        assert(items.push(item)[0] == items[0]);
        assert(items.push(item).drop_first() =~= items.drop_first().push(item));
        lemma_join_snoc(items.drop_first(), item, sep);
        assert(items.drop_first().len() > 0);
        assert((items[0] + seq![sep] + (spec_join(items.drop_first(), sep) + seq![sep] + item)) =~= (
        items[0] + seq![sep] + spec_join(items.drop_first(), sep)) + seq![sep] + item);
    }
}

/// Build the kernel parameter string of one module.
pub fn finit_params(opts: Option<&Vec<u8>>, params: Option<&Vec<Vec<u8>>>) -> (out: Vec<u8>)
    ensures
        out@ == spec_finit_params(
            match opts {
                Some(o) => o@,
                None => Seq::empty(),
            },
            match params {
                Some(p) => p.deep_view(),
                None => Seq::empty(),
            },
        ),
{
    let mut out: Vec<u8> = Vec::new();
    match opts {
        Some(o) => {
            push_all(&mut out, o.as_slice());
        },
        None => {},
    }
    out.push(32);
    let ghost head = out@;
    match params {
        Some(p) => {
            let ghost all = p.deep_view();
            let mut i: usize = 0;
            while i < p.len()
                invariant
                    i <= p@.len(),
                    all == p.deep_view(),
                    all.len() == p@.len(),
                    out@ == head + spec_join(all.subrange(0, i as int), 32),
                    head == out@.subrange(0, head.len() as int),
                decreases p@.len() - i,
            {
                proof {
                    assert(all.subrange(0, i + 1) =~= all.subrange(0, i as int).push(
                        all[i as int],
                    ));
                    lemma_join_snoc(all.subrange(0, i as int), all[i as int], 32);
                }
                if i > 0 {
                    out.push(32);
                }
                let item: &[u8] = p[i].as_slice();
                proof {
                    assert(item@ =~= all[i as int]);
                }
                push_all(&mut out, item);
                proof {
                    assert(out@ =~= head + spec_join(all.subrange(0, i + 1), 32));
                }
                i += 1;
            }
            proof {
                assert(all.subrange(0, all.len() as int) =~= all);
            }
        },
        None => {},
    }
    proof {
        assert(out@ =~= spec_finit_params(
            match opts {
                Some(o) => o@,
                None => Seq::empty(),
            },
            match params {
                Some(p) => p.deep_view(),
                None => Seq::empty(),
            },
        ));
    }
    out
}

/// Appending a member of the last chain element's dependency list
/// keeps a chain valid.
proof fn lemma_chain_extends(
    meta: InitramfsMetadata,
    chain: Seq<Seq<u8>>,
    mods: Seq<Seq<u8>>,
    m: Seq<u8>,
)
    requires
        spec_dep_chain(meta, chain),
        chain.len() > 0 ==> crate::modparams::spec_lookup(
            crate::config::spec_dep_map(meta.deps@),
            chain.last(),
        ) == Some(mods),
        mods.contains(m),
    ensures
        spec_dep_chain(meta, chain.push(m)),
        chain.push(m).last() == m,
{
    let c = chain.push(m);
    assert forall|x: int| #![trigger c[x]] 0 <= x < c.len() - 1 implies (match crate::modparams::spec_lookup(
        crate::config::spec_dep_map(meta.deps@),
        c[x],
    ) {
        Some(ds) => ds.contains(c[x + 1]),
        None => false,
    }) by {
        if x < chain.len() - 1 {
            assert(c[x] == chain[x]);
            assert(c[x + 1] == chain[x + 1]);
        } else {
            assert(x == chain.len() - 1);
            assert(c[x] == chain.last());
            assert(c[x + 1] == m);
        }
    }
}

/// Copy a module name list.
fn copy_modules(ds: &Vec<Vec<u8>>) -> (r: Vec<Vec<u8>>)
    ensures
        r.deep_view() == ds.deep_view(),
{
    let mut r: Vec<Vec<u8>> = Vec::new();
    let mut i: usize = 0;
    while i < ds.len()
        invariant
            i <= ds@.len(),
            r.deep_view() =~= ds.deep_view().subrange(0, i as int),
        decreases ds@.len() - i,
    {
        let m = sub_vec(ds[i].as_slice(), 0, ds[i].len());
        proof {
            assert(m@ =~= ds@[i as int]@);
            assert(ds.deep_view()[i as int] =~= ds@[i as int]@);
        }
        let ghost prevd = r.deep_view();
        r.push(m);
        proof {
            assert(r.deep_view() =~~= prevd.push(m@));
            assert(prevd.push(m@) =~= ds.deep_view().subrange(0, i + 1));
        }
        i += 1;
    }
    proof {
        assert(ds.deep_view().subrange(0, ds.deep_view().len() as int) =~= ds.deep_view());
    }
    r
}

/// Appending a token to one loading entry keeps the ledger well
/// formed and all waits intact, and adds the new wait.
proof fn lemma_update_entry(before: ModLoading, after: ModLoading, j: int, token: u64)
    requires
        spec_ledger_wf(before),
        0 <= j < before.loading@.len(),
        after.loaded == before.loaded,
        after.loading@.len() == before.loading@.len(),
        forall|i: int|
            0 <= i < after.loading@.len() && i != j ==> after.loading@[i] == before.loading@[i],
        after.loading@[j].module@ == before.loading@[j].module@,
        after.loading@[j].tokens@ == before.loading@[j].tokens@.push(token),
    ensures
        spec_ledger_wf(after),
        forall|m: Seq<u8>| spec_is_loading(before, m) ==> spec_is_loading(after, m),
        forall|m: Seq<u8>, t: u64|
            spec_token_waits(before, m, t) ==> spec_token_waits(after, m, t),
        spec_token_waits(after, before.loading@[j].module@, token),
        forall|m: Seq<u8>| spec_is_loading(after, m) ==> spec_is_loading(before, m),
{
    assert forall|m: Seq<u8>| spec_is_loading(before, m) implies spec_is_loading(after, m) by {
        let i = choose|i: int| 0 <= i < before.loading@.len() && before.loading@[i].module@ == m;
        assert(after.loading@[i].module@ == m);
    }
    assert forall|m: Seq<u8>| spec_is_loading(after, m) implies spec_is_loading(before, m) by {
        let i = choose|i: int| 0 <= i < after.loading@.len() && after.loading@[i].module@ == m;
        assert(before.loading@[i].module@ == m);
    }
    assert forall|m: Seq<u8>, t: u64| spec_token_waits(before, m, t) implies spec_token_waits(
        after,
        m,
        t,
    ) by {
        let i = choose|i: int|
            0 <= i < before.loading@.len() && before.loading@[i].module@ == m
                && before.loading@[i].tokens@.contains(t);
        if i == j {
            let w = choose|w: int|
                0 <= w < before.loading@[j].tokens@.len() && before.loading@[j].tokens@[w] == t;
            assert(after.loading@[j].tokens@[w] == t);
            assert(after.loading@[j].tokens@.contains(t));
        } else {
            assert(after.loading@[i].tokens@.contains(t));
        }
    }
    assert(after.loading@[j].tokens@[before.loading@[j].tokens@.len() as int] == token);
    assert(after.loading@[j].tokens@.contains(token));
}

/// Adding a fresh module to the loading table keeps the ledger well
/// formed and all waits intact, and adds the new wait.
proof fn lemma_push_entry(before: ModLoading, after: ModLoading, m: Seq<u8>, token: u64)
    requires
        spec_ledger_wf(before),
        !spec_is_loading(before, m),
        !spec_loaded(before).contains(m),
        after.loaded == before.loaded,
        after.loading@.len() == before.loading@.len() + 1,
        forall|i: int|
            0 <= i < before.loading@.len() ==> after.loading@[i] == before.loading@[i],
        after.loading@.last().module@ == m,
        after.loading@.last().tokens@ == seq![token],
    ensures
        spec_ledger_wf(after),
        forall|mm: Seq<u8>| spec_is_loading(before, mm) ==> spec_is_loading(after, mm),
        forall|mm: Seq<u8>, t: u64|
            spec_token_waits(before, mm, t) ==> spec_token_waits(after, mm, t),
        spec_is_loading(after, m),
        spec_token_waits(after, m, token),
    decreases 0int,
{
    let n = before.loading@.len() as int;
    assert forall|i: int, j: int|
        0 <= i < j < after.loading@.len() implies after.loading@[i].module@
        != after.loading@[j].module@ by {
        if j < n {
        } else {
            assert(after.loading@[j].module@ == m);
            assert(after.loading@[i] == before.loading@[i]);
            if before.loading@[i].module@ == m {
                assert(spec_is_loading(before, m));
            }
        }
    }
    assert forall|i: int| 0 <= i < after.loading@.len() implies !spec_loaded(after).contains(
        after.loading@[i].module@,
    ) by {
        assert(spec_loaded(after) == spec_loaded(before));
        if i < n {
            assert(!spec_loaded(before).contains(before.loading@[i].module@));
        }
    }
    assert forall|mm: Seq<u8>| spec_is_loading(before, mm) implies spec_is_loading(after, mm) by {
        let i = choose|i: int| 0 <= i < before.loading@.len() && before.loading@[i].module@ == mm;
        assert(after.loading@[i].module@ == mm);
    }
    assert forall|mm: Seq<u8>, t: u64| spec_token_waits(before, mm, t) implies spec_token_waits(
        after,
        mm,
        t,
    ) by {
        let i = choose|i: int|
            0 <= i < before.loading@.len() && before.loading@[i].module@ == mm
                && before.loading@[i].tokens@.contains(t);
        assert(after.loading@[i].module@ == mm);
        assert(after.loading@[i].tokens@.contains(t));
    }
    assert(after.loading@[n].module@ == m);
    assert(after.loading@[n].tokens@.contains(token)) by {
        assert(after.loading@[n].tokens@[0] == token);
    }
}

/// Removing one loading entry keeps the ledger well formed; the
/// removed module is no longer loading.
proof fn lemma_remove_entry(before: ModLoading, after: ModLoading, j: int)
    requires
        spec_ledger_wf(before),
        0 <= j < before.loading@.len(),
        after.loaded == before.loaded,
        after.loading@ == before.loading@.remove(j),
    ensures
        spec_ledger_wf(after),
        !spec_is_loading(after, before.loading@[j].module@),
        forall|m: Seq<u8>|
            spec_is_loading(before, m) && m != before.loading@[j].module@ ==> spec_is_loading(
                after,
                m,
            ),
        forall|m: Seq<u8>, t: u64|
            spec_token_waits(before, m, t) && m != before.loading@[j].module@
                ==> spec_token_waits(after, m, t),
{
    let m0 = before.loading@[j].module@;
    assert forall|i: int, k: int|
        0 <= i < k < after.loading@.len() implies after.loading@[i].module@
        != after.loading@[k].module@ by {
        assert(after.loading@[i] == if i < j {
            before.loading@[i]
        } else {
            before.loading@[i + 1]
        });
        assert(after.loading@[k] == if k < j {
            before.loading@[k]
        } else {
            before.loading@[k + 1]
        });
    }
    assert forall|i: int| 0 <= i < after.loading@.len() implies !spec_loaded(after).contains(
        after.loading@[i].module@,
    ) by {
        assert(after.loading@[i] == if i < j {
            before.loading@[i]
        } else {
            before.loading@[i + 1]
        });
        assert(spec_loaded(after) == spec_loaded(before));
    }
    if spec_is_loading(after, m0) {
        let i = choose|i: int| 0 <= i < after.loading@.len() && after.loading@[i].module@ == m0;
        assert(after.loading@[i] == if i < j {
            before.loading@[i]
        } else {
            before.loading@[i + 1]
        });
    }
    assert forall|m: Seq<u8>|
        spec_is_loading(before, m) && m != m0 implies spec_is_loading(after, m) by {
        let i = choose|i: int| 0 <= i < before.loading@.len() && before.loading@[i].module@ == m;
        if i < j {
            assert(after.loading@[i] == before.loading@[i]);
        } else {
            assert(after.loading@[i - 1] == before.loading@[i]);
        }
    }
    assert forall|m: Seq<u8>, t: u64|
        spec_token_waits(before, m, t) && m != m0 implies spec_token_waits(after, m, t) by {
        let i = choose|i: int|
            0 <= i < before.loading@.len() && before.loading@[i].module@ == m
                && before.loading@[i].tokens@.contains(t);
        if i < j {
            assert(after.loading@[i] == before.loading@[i]);
        } else {
            assert(after.loading@[i - 1] == before.loading@[i]);
        }
    }
}

/// Recording a module as loaded keeps the ledger well formed when the
/// module is neither loaded nor loading.
proof fn lemma_loaded_push(before: ModLoading, after: ModLoading, m: Seq<u8>)
    requires
        spec_ledger_wf(before),
        !spec_is_loading(before, m),
        !spec_loaded(before).contains(m),
        after.loading == before.loading,
        after.loaded@.len() == before.loaded@.len() + 1,
        forall|i: int| 0 <= i < before.loaded@.len() ==> after.loaded@[i] == before.loaded@[i],
        after.loaded@.last()@ == m,
    ensures
        spec_ledger_wf(after),
        spec_loaded(after).contains(m),
        forall|mm: Seq<u8>| spec_is_loading(before, mm) ==> spec_is_loading(after, mm),
        forall|mm: Seq<u8>, t: u64|
            spec_token_waits(before, mm, t) ==> spec_token_waits(after, mm, t),
        forall|m2: Seq<u8>| spec_loaded(before).contains(m2) ==> spec_loaded(after).contains(m2),
{
    let n = before.loaded@.len() as int;
    assert(spec_loaded(after)[n] == m);
    assert forall|i: int, j: int|
        0 <= i < j < after.loaded@.len() implies spec_loaded(after)[i] != spec_loaded(after)[j] by {
        if j < n {
            assert(spec_loaded(after)[i] == spec_loaded(before)[i]);
            assert(spec_loaded(after)[j] == spec_loaded(before)[j]);
        } else {
            assert(spec_loaded(after)[j] == m);
            assert(spec_loaded(after)[i] == spec_loaded(before)[i]);
            if spec_loaded(before)[i] == m {
                assert(spec_loaded(before).contains(m));
            }
        }
    }
    assert forall|m2: Seq<u8>|
        spec_loaded(before).contains(m2) implies spec_loaded(after).contains(m2) by {
        let k = choose|k: int| 0 <= k < spec_loaded(before).len() && spec_loaded(before)[k] == m2;
        assert(spec_loaded(after)[k] == m2);
    }
    assert forall|i: int| 0 <= i < after.loading@.len() implies !spec_loaded(after).contains(
        after.loading@[i].module@,
    ) by {
        if spec_loaded(after).contains(after.loading@[i].module@) {
            let k = choose|k: int|
                0 <= k < spec_loaded(after).len() && spec_loaded(after)[k]
                    == after.loading@[i].module@;
            if k < n {
                assert(spec_loaded(before)[k] == spec_loaded(before).index(k));
                assert(spec_loaded(before).contains(before.loading@[i].module@));
            } else {
                assert(after.loading@[i].module@ == m);
                assert(spec_is_loading(before, m));
            }
        }
    }
}

} // verus!
