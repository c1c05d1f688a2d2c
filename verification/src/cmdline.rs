//! The kernel command line parser: token dispatch, first-wins
//! verbosity, root and resume sources, module parameters, and the
//! deferred flush of early log entries.

use vstd::prelude::*;
use crate::bytes::{find_byte, push_all, spec_find, spec_split, spec_trim, split_on, sub_vec, trim_ascii};
use crate::kmsg::{
    lemma_flush_grew, spec_flush_lines, spec_flush_pairs, spec_queue_grew, spec_queue_push,
    BufEntry, KmsgBuf,
};
use crate::lit;
use crate::modparams::{spec_insert, ModParams};
use crate::mount::{spec_apply_opts, lemma_apply_opts_snoc, OptStateView, RootOpts, RootOptsBuilder};
use crate::partition::{
    spec_parse_source, spec_root_type_guid, EfiPartitionGptGuid, KernelArch, PartitionSourceBuilder,
    SourceView, spec_efivar_guid,
};
use crate::verbosity::{spec_parse_level, VerbosityLevel};

verus! {

/// Why the command line was rejected.
#[derive(Debug, Clone, Copy, PartialEq, Eq, Structural)]
pub enum CmdlineError {
    /// A `root=` value matching no recognized form.
    BadRootValue,
    /// A `resume=` value matching no recognized form.
    BadResumeValue,
    /// An `init=` path holding a NUL byte.
    BadInitPath,
    /// No `root=` given and the EFI loader variable was missing.
    NoRootSource,
    /// No `root=` given and the EFI loader variable held no UUID.
    BadEfiVariable,
}

/// Splitting a token at its first `=`: the key, and the value if the
/// `=` is there.
pub open spec fn spec_key_value(tok: Seq<u8>) -> (Seq<u8>, Option<Seq<u8>>) {
    match spec_find(tok, 61) {
        Some(i) => (tok.subrange(0, i), Some(tok.skip(i + 1))),
        None => (tok, None),
    }
}

/// The recognized command line keys.
#[derive(Debug, Clone, Copy, PartialEq, Eq, Structural)]
pub enum KeyKind {
    IgnitedLog,
    BoosterLog,
    BoosterDebug,
    Quiet,
    Root,
    Resume,
    Init,
    RootFsType,
    RootFlags,
    Ro,
    Rw,
    LuksReserved,
    Other,
}

/// Which handler a key goes to.
#[verifier::opaque]
pub open spec fn spec_key_kind(key: Seq<u8>) -> KeyKind {
    if key == lit::spec_ignited_log() {
        KeyKind::IgnitedLog
    } else if key == lit::spec_booster_log() {
        KeyKind::BoosterLog
    } else if key == lit::spec_booster_debug() {
        KeyKind::BoosterDebug
    } else if key == lit::spec_quiet() {
        KeyKind::Quiet
    } else if key == lit::spec_root() {
        KeyKind::Root
    } else if key == lit::spec_resume() {
        KeyKind::Resume
    } else if key == lit::spec_init() {
        KeyKind::Init
    } else if key == lit::spec_rootfstype() {
        KeyKind::RootFsType
    } else if key == lit::spec_rootflags() {
        KeyKind::RootFlags
    } else if key == lit::spec_ro() {
        KeyKind::Ro
    } else if key == lit::spec_rw() {
        KeyKind::Rw
    } else if key == lit::spec_rd_luks_options() || key == lit::spec_rd_luks_name() || key
        == lit::spec_rd_luks_uuid() {
        KeyKind::LuksReserved
    } else {
        KeyKind::Other
    }
}

/// First-wins application of a list of verbosity spellings: each valid
/// spelling is taken only when no level is set yet.
pub open spec fn spec_apply_levels(
    v: Option<VerbosityLevel>,
    items: Seq<Seq<u8>>,
) -> Option<VerbosityLevel>
    decreases items.len(),
{
    if items.len() == 0 {
        v
    } else {
        let v2 = match spec_parse_level(items[0]) {
            Some(l) => if v is None {
                Some(l)
            } else {
                v
            },
            None => v,
        };
        spec_apply_levels(v2, items.drop_first())
    }
}

pub proof fn lemma_apply_levels_snoc(
    v: Option<VerbosityLevel>,
    items: Seq<Seq<u8>>,
    item: Seq<u8>,
)
    ensures
        spec_apply_levels(v, items.push(item)) == {
            let v1 = spec_apply_levels(v, items);
            match spec_parse_level(item) {
                Some(l) => if v1 is None {
                    Some(l)
                } else {
                    v1
                },
                None => v1,
            }
        },
    decreases items.len(),
{
    reveal_with_fuel(spec_apply_levels, 3);
    if items.len() == 0 {
        assert(items.push(item)[0] == item);
        assert(items.push(item).drop_first() =~= Seq::<Seq<u8>>::empty());
    } else {
        assert(items.push(item)[0] == items[0]);
        assert(items.push(item).drop_first() =~= items.drop_first().push(item));
        let v2 = match spec_parse_level(items[0]) {
            Some(l) => if v is None {
                Some(l)
            } else {
                v
            },
            None => v,
        };
        lemma_apply_levels_snoc(v2, items.drop_first(), item);
    }
}

/// What one token alone would set the verbosity to.
pub open spec fn spec_token_level(tok: Seq<u8>) -> Option<VerbosityLevel> {
    let (key, val) = spec_key_value(tok);
    match spec_key_kind(key) {
        KeyKind::IgnitedLog => match val {
            Some(v) => spec_apply_levels(None, seq![v]),
            None => None,
        },
        KeyKind::BoosterLog => match val {
            Some(v) => spec_apply_levels(None, spec_split(v, 44)),
            None => None,
        },
        KeyKind::BoosterDebug => Some(VerbosityLevel::Debug),
        KeyKind::Quiet => Some(VerbosityLevel::Error),
        _ => None,
    }
}

/// The first level any token of the list sets.
pub open spec fn spec_first_level(toks: Seq<Seq<u8>>) -> Option<VerbosityLevel>
    decreases toks.len(),
{
    if toks.len() == 0 {
        None
    } else {
        match spec_token_level(toks[0]) {
            Some(l) => Some(l),
            None => spec_first_level(toks.drop_first()),
        }
    }
}

/// A level already set is never overwritten.
proof fn lemma_apply_levels_set(v: VerbosityLevel, items: Seq<Seq<u8>>)
    ensures
        spec_apply_levels(Some(v), items) == Some(v),
    decreases items.len(),
{
    if items.len() > 0 {
        lemma_apply_levels_set(v, items.drop_first());
    }
}

/// One step either keeps a set level, or sets exactly what the token
/// alone would set.
proof fn lemma_step_verbosity(st: ArgsStateView, tok: Seq<u8>)
    ensures
        spec_step(st, tok) matches Ok(st2) ==> st2.verbosity == (if st.verbosity is Some {
            st.verbosity
        } else {
            spec_token_level(tok)
        }),
{
    let (key, val) = spec_key_value(tok);
    match spec_key_kind(key) {
        KeyKind::IgnitedLog => {
            match val {
                Some(v) => {
                    if st.verbosity is Some {
                        lemma_apply_levels_set(st.verbosity.unwrap(), seq![v]);
                    }
                },
                None => {},
            }
        },
        KeyKind::BoosterLog => {
            match val {
                Some(v) => {
                    if st.verbosity is Some {
                        lemma_apply_levels_set(st.verbosity.unwrap(), spec_split(v, 44));
                    }
                },
                None => {},
            }
        },
        _ => {},
    }
}

/// The first verbosity-setting token wins: for any token list the
/// parser accepts, the resulting level is the first one any token
/// sets, whatever came after it.
pub proof fn lemma_first_verbosity_wins(st: ArgsStateView, toks: Seq<Seq<u8>>)
    requires
        spec_fold(st, toks) is Ok,
    ensures
        spec_fold(st, toks).unwrap().verbosity == (if st.verbosity is Some {
            st.verbosity
        } else {
            spec_first_level(toks)
        }),
    decreases toks.len(),
{
    if toks.len() > 0 {
        lemma_step_verbosity(st, toks[0]);
        match spec_step(st, toks[0]) {
            Ok(st2) => {
                lemma_first_verbosity_wins(st2, toks.drop_first());
                if st.verbosity is None {
                    match spec_token_level(toks[0]) {
                        Some(l) => {},
                        None => {},
                    }
                }
            },
            Err(_) => {},
        }
    }
}

/// The `unknown <key> key <value>` warning text.
pub open spec fn spec_unknown_level_msg(key: Seq<u8>, item: Seq<u8>) -> Seq<u8> {
    lit::spec_unknown_pre() + key + lit::spec_key_mid() + item
}

/// The diagnostics one verbosity spelling leaves in the deferred
/// buffer: nothing for a valid level, a debug note for the ignored
/// `console`, a warning for anything else.
pub open spec fn spec_level_item_logs(key: Seq<u8>, item: Seq<u8>) -> Seq<(
    VerbosityLevel,
    Seq<u8>,
)> {
    if spec_parse_level(item) is Some {
        Seq::empty()
    } else if item == lit::spec_console() {
        seq![(VerbosityLevel::Debug, key + lit::spec_console_ignored())]
    } else {
        seq![(VerbosityLevel::Warn, spec_unknown_level_msg(key, item))]
    }
}

/// The diagnostics of a list of verbosity spellings; a comma list
/// skips its empty pieces silently.
pub open spec fn spec_level_list_logs(
    key: Seq<u8>,
    items: Seq<Seq<u8>>,
    skip_empty: bool,
) -> Seq<(VerbosityLevel, Seq<u8>)>
    decreases items.len(),
{
    if items.len() == 0 {
        Seq::empty()
    } else {
        let head = if skip_empty && items[0].len() == 0 {
            Seq::empty()
        } else {
            spec_level_item_logs(key, items[0])
        };
        head + spec_level_list_logs(key, items.drop_first(), skip_empty)
    }
}

proof fn lemma_level_list_logs_snoc(key: Seq<u8>, items: Seq<Seq<u8>>, item: Seq<u8>, skip_empty: bool)
    ensures
        spec_level_list_logs(key, items.push(item), skip_empty) == spec_level_list_logs(
            key,
            items,
            skip_empty,
        ) + (if skip_empty && item.len() == 0 {
            Seq::empty()
        } else {
            spec_level_item_logs(key, item)
        }),
    decreases items.len(),
{
    reveal_with_fuel(spec_level_list_logs, 3);
    let tail = if skip_empty && item.len() == 0 {
        Seq::<(VerbosityLevel, Seq<u8>)>::empty()
    } else {
        spec_level_item_logs(key, item)
    };
    if items.len() == 0 {
        assert(items.push(item)[0] == item);
        assert(items.push(item).drop_first() =~= Seq::<Seq<u8>>::empty());
        assert(tail + Seq::<(VerbosityLevel, Seq<u8>)>::empty() =~= tail);
        assert(Seq::<(VerbosityLevel, Seq<u8>)>::empty() + tail =~= tail);
    } else {
        assert(items.push(item)[0] == items[0]);
        assert(items.push(item).drop_first() =~= items.drop_first().push(item));
        lemma_level_list_logs_snoc(key, items.drop_first(), item, skip_empty);
        let head = if skip_empty && items[0].len() == 0 {
            Seq::<(VerbosityLevel, Seq<u8>)>::empty()
        } else {
            spec_level_item_logs(key, items[0])
        };
        assert(head + (spec_level_list_logs(key, items.drop_first(), skip_empty) + tail) =~= (head
            + spec_level_list_logs(key, items.drop_first(), skip_empty)) + tail);
    }
}

/// The diagnostics one token leaves in the deferred buffer.
pub open spec fn spec_token_logs(tok: Seq<u8>) -> Seq<(VerbosityLevel, Seq<u8>)> {
    let (key, val) = spec_key_value(tok);
    match spec_key_kind(key) {
        KeyKind::IgnitedLog => match val {
            Some(v) => spec_level_item_logs(key, v),
            None => seq![
                (VerbosityLevel::Warn, spec_unknown_level_msg(key, lit::spec_empty_marker())),
            ],
        },
        KeyKind::BoosterLog => match val {
            Some(v) => spec_level_list_logs(key, spec_split(v, 44), true),
            None => seq![
                (VerbosityLevel::Warn, spec_unknown_level_msg(key, lit::spec_empty_marker())),
            ],
        },
        KeyKind::BoosterDebug => seq![(VerbosityLevel::Debug, lit::spec_booster_deprecated())],
        KeyKind::Quiet => Seq::empty(),
        KeyKind::Root | KeyKind::Resume | KeyKind::Init | KeyKind::RootFsType
            | KeyKind::RootFlags => match val {
            Some(_) => Seq::empty(),
            None => seq![(VerbosityLevel::Warn, key + lit::spec_empty_value_suffix())],
        },
        KeyKind::Ro | KeyKind::Rw | KeyKind::LuksReserved => Seq::empty(),
        KeyKind::Other => match val {
            Some(_) => if spec_find(key, 46) is Some {
                Seq::empty()
            } else {
                seq![(VerbosityLevel::Warn, lit::spec_invalid_key_pre() + key)]
            },
            None => seq![(VerbosityLevel::Warn, lit::spec_invalid_key_pre() + key)],
        },
    }
}

/// The diagnostics a whole token list leaves, up to and including the
/// token that rejects it.
pub open spec fn spec_fold_logs(st: ArgsStateView, toks: Seq<Seq<u8>>) -> Seq<(
    VerbosityLevel,
    Seq<u8>,
)>
    decreases toks.len(),
{
    if toks.len() == 0 {
        Seq::empty()
    } else {
        match spec_step(st, toks[0]) {
            Ok(st2) => spec_token_logs(toks[0]) + spec_fold_logs(st2, toks.drop_first()),
            Err(_) => spec_token_logs(toks[0]),
        }
    }
}

proof fn lemma_fold_logs_snoc(st: ArgsStateView, toks: Seq<Seq<u8>>, tok: Seq<u8>)
    requires
        spec_fold(st, toks) is Ok,
    ensures
        spec_fold_logs(st, toks.push(tok)) == spec_fold_logs(st, toks) + spec_token_logs(tok),
    decreases toks.len(),
{
    reveal_with_fuel(spec_fold_logs, 3);
    reveal_with_fuel(spec_fold, 3);
    if toks.len() == 0 {
        assert(toks.push(tok)[0] == tok);
        assert(toks.push(tok).drop_first() =~= Seq::<Seq<u8>>::empty());
        match spec_step(st, tok) {
            Ok(st2) => {
                assert(spec_token_logs(tok) + Seq::<(VerbosityLevel, Seq<u8>)>::empty()
                    =~= spec_token_logs(tok));
            },
            Err(_) => {},
        }
        assert(Seq::<(VerbosityLevel, Seq<u8>)>::empty() + spec_token_logs(tok)
            =~= spec_token_logs(tok));
    } else {
        assert(toks.push(tok)[0] == toks[0]);
        assert(toks.push(tok).drop_first() =~= toks.drop_first().push(tok));
        match spec_step(st, toks[0]) {
            Ok(st2) => {
                lemma_fold_logs_snoc(st2, toks.drop_first(), tok);
                assert(spec_token_logs(toks[0]) + (spec_fold_logs(st2, toks.drop_first())
                    + spec_token_logs(tok)) =~= (spec_token_logs(toks[0]) + spec_fold_logs(
                    st2,
                    toks.drop_first(),
                )) + spec_token_logs(tok));
            },
            Err(_) => {},
        }
    }
}

/// A queue that did not change grew by nothing.
proof fn lemma_grew_refl(q: Seq<BufEntry>)
    ensures
        spec_queue_grew(q, q, Seq::empty()),
{
    assert(q.subrange(0, q.len() as int) =~= q);
}

/// One pushed entry is a one-element growth.
proof fn lemma_grew_push(q1: Seq<BufEntry>, q2: Seq<BufEntry>, level: VerbosityLevel, text: Seq<u8>)
    requires
        spec_queue_push(q1, q2, level, text),
    ensures
        spec_queue_grew(q1, q2, seq![(level, text)]),
{
    assert(q2[q1.len() as int] == q2.last());
}

/// Two growths in a row grow by the concatenation.
proof fn lemma_grew_trans(
    q1: Seq<BufEntry>,
    q2: Seq<BufEntry>,
    q3: Seq<BufEntry>,
    l1: Seq<(VerbosityLevel, Seq<u8>)>,
    l2: Seq<(VerbosityLevel, Seq<u8>)>,
)
    requires
        spec_queue_grew(q1, q2, l1),
        spec_queue_grew(q2, q3, l2),
    ensures
        spec_queue_grew(q1, q3, l1 + l2),
{
    assert forall|i: int| 0 <= i < q2.len() implies q3[i] == q2[i] by {
        assert(q3.subrange(0, q2.len() as int)[i] == q3[i]);
    }
    assert forall|i: int| 0 <= i < q1.len() implies q2[i] == q1[i] by {
        assert(q2.subrange(0, q1.len() as int)[i] == q2[i]);
    }
    assert(q3.subrange(0, q1.len() as int) =~= q1);
    assert forall|i: int|
        0 <= i < (l1 + l2).len() implies #[trigger] q3[q1.len() + i].level == (l1 + l2)[i].0 && q3[
        q1.len() + i].text@ == (l1 + l2)[i].1 by {
        if i < l1.len() {
            assert((l1 + l2)[i] == l1[i]);
            assert(q3[q1.len() + i] == q2[q1.len() + i]);
        } else {
            assert((l1 + l2)[i] == l2[i - l1.len()]);
            assert(q3[q2.len() + (i - l1.len())].level == l2[i - l1.len()].0);
        }
    }
}

/// Queue one diagnostic line.
fn push_log(kmsg: &mut KmsgBuf, level: VerbosityLevel, msg: Vec<u8>)
    requires
        !old(kmsg).flushed,
    ensures
        !final(kmsg).flushed,
        final(kmsg).threshold == old(kmsg).threshold,
        spec_queue_grew(old(kmsg).queued@, final(kmsg).queued@, seq![(level, msg@)]),
{
    let _ = kmsg.log(level, msg.as_slice());
    proof {
        lemma_grew_push(old(kmsg).queued@, final(kmsg).queued@, level, msg@);
    }
}

/// The state the parser accumulates token by token.
pub struct ArgsState {
    pub verbosity: Option<VerbosityLevel>,
    pub init: Option<Vec<u8>>,
    pub root: RootOptsBuilder,
    pub resume: Option<PartitionSourceBuilder>,
    pub params: ModParams,
}

/// The ghost counterpart of the parser state.
pub struct ArgsStateView {
    pub verbosity: Option<VerbosityLevel>,
    pub init: Option<Seq<u8>>,
    pub root_source: Option<SourceView>,
    pub fstype: Option<Seq<u8>>,
    pub rw: bool,
    pub opt_state: OptStateView,
    pub resume: Option<SourceView>,
    pub params: Seq<(Seq<u8>, Seq<Seq<u8>>)>,
}

impl View for ArgsState {
    type V = ArgsStateView;

    open spec fn view(&self) -> ArgsStateView {
        ArgsStateView {
            verbosity: self.verbosity,
            init: match self.init {
                Some(ref p) => Some(p@),
                None => None,
            },
            root_source: match self.root.source {
                Some(ref s) => Some(s@),
                None => None,
            },
            fstype: match self.root.fstype {
                Some(ref f) => Some(f@),
                None => None,
            },
            rw: self.root.rw,
            opt_state: OptStateView {
                flags: self.root.flags,
                options: match self.root.options {
                    Some(ref o) => Some(o@),
                    None => None,
                },
            },
            resume: match self.resume {
                Some(ref s) => Some(s@),
                None => None,
            },
            params: self.params@,
        }
    }
}

/// One token applied to the state; an unparseable `root=`, `resume=`
/// or `init=` value rejects the whole command line.
pub open spec fn spec_step(st: ArgsStateView, tok: Seq<u8>) -> Result<ArgsStateView, CmdlineError> {
    let (key, val) = spec_key_value(tok);
    match spec_key_kind(key) {
        KeyKind::IgnitedLog => match val {
            Some(v) => Ok(
                ArgsStateView { verbosity: spec_apply_levels(st.verbosity, seq![v]), ..st },
            ),
            None => Ok(st),
        },
        KeyKind::BoosterLog => match val {
            Some(v) => Ok(
                ArgsStateView {
                    verbosity: spec_apply_levels(st.verbosity, spec_split(v, 44)),
                    ..st
                },
            ),
            None => Ok(st),
        },
        KeyKind::BoosterDebug => Ok(
            ArgsStateView {
                verbosity: if st.verbosity is None {
                    Some(VerbosityLevel::Debug)
                } else {
                    st.verbosity
                },
                ..st
            },
        ),
        KeyKind::Quiet => Ok(
            ArgsStateView {
                verbosity: if st.verbosity is None {
                    Some(VerbosityLevel::Error)
                } else {
                    st.verbosity
                },
                ..st
            },
        ),
        KeyKind::Root => match val {
            Some(v) => match spec_parse_source(v) {
                Some(src) => Ok(
                    ArgsStateView {
                        root_source: if st.root_source is None {
                            Some(src)
                        } else {
                            st.root_source
                        },
                        ..st
                    },
                ),
                None => Err(CmdlineError::BadRootValue),
            },
            None => Ok(st),
        },
        KeyKind::Resume => match val {
            Some(v) => match spec_parse_source(v) {
                Some(src) => Ok(
                    ArgsStateView {
                        resume: if st.resume is None {
                            Some(src)
                        } else {
                            st.resume
                        },
                        ..st
                    },
                ),
                None => Err(CmdlineError::BadResumeValue),
            },
            None => Ok(st),
        },
        KeyKind::Init => match val {
            Some(v) => if exists|i: int| 0 <= i < v.len() && v[i] == 0 {
                Err(CmdlineError::BadInitPath)
            } else {
                Ok(
                    ArgsStateView {
                        init: if st.init is None {
                            Some(v)
                        } else {
                            st.init
                        },
                        ..st
                    },
                )
            },
            None => Ok(st),
        },
        KeyKind::RootFsType => match val {
            Some(v) => Ok(
                ArgsStateView {
                    fstype: if st.fstype is None {
                        Some(v)
                    } else {
                        st.fstype
                    },
                    ..st
                },
            ),
            None => Ok(st),
        },
        KeyKind::RootFlags => match val {
            Some(v) => Ok(
                ArgsStateView { opt_state: spec_apply_opts(st.opt_state, spec_split(v, 44)), ..st },
            ),
            None => Ok(st),
        },
        KeyKind::Ro => Ok(ArgsStateView { rw: false, ..st }),
        KeyKind::Rw => Ok(ArgsStateView { rw: true, ..st }),
        KeyKind::LuksReserved => Ok(st),
        KeyKind::Other => match val {
            Some(v) => match spec_find(key, 46) {
                Some(i) => Ok(
                    ArgsStateView {
                        params: spec_insert(
                            st.params,
                            key.subrange(0, i),
                            key.skip(i + 1) + seq![61u8] + v,
                        ),
                        ..st
                    },
                ),
                None => Ok(st),
            },
            None => Ok(st),
        },
    }
}

/// The whole token list applied to the state, stopping at the first
/// rejection.
pub open spec fn spec_fold(st: ArgsStateView, toks: Seq<Seq<u8>>) -> Result<
    ArgsStateView,
    CmdlineError,
>
    decreases toks.len(),
{
    if toks.len() == 0 {
        Ok(st)
    } else {
        match spec_step(st, toks[0]) {
            Ok(st2) => spec_fold(st2, toks.drop_first()),
            Err(e) => Err(e),
        }
    }
}

pub proof fn lemma_fold_snoc(st: ArgsStateView, toks: Seq<Seq<u8>>, tok: Seq<u8>)
    ensures
        spec_fold(st, toks.push(tok)) == match spec_fold(st, toks) {
            Ok(st2) => spec_step(st2, tok),
            Err(e) => Err(e),
        },
    decreases toks.len(),
{
    reveal_with_fuel(spec_fold, 3);
    if toks.len() == 0 {
        assert(toks.push(tok)[0] == tok);
        assert(toks.push(tok).drop_first() =~= Seq::<Seq<u8>>::empty());
        match spec_step(st, tok) {
            Ok(st2) => {
                assert(spec_fold(st2, toks.push(tok).drop_first()) == Ok::<
                    ArgsStateView,
                    CmdlineError,
                >(st2));
            },
            Err(_) => {},
        }
    } else {
        assert(toks.push(tok)[0] == toks[0]);
        assert(toks.push(tok).drop_first() =~= toks.drop_first().push(tok));
        match spec_step(st, toks[0]) {
            Ok(st2) => {
                lemma_fold_snoc(st2, toks.drop_first(), tok);
            },
            Err(_) => {},
        }
    }
}

/// Once a prefix of the tokens is rejected, the whole list is
/// rejected with the same error.
pub proof fn lemma_fold_error_prefix(st: ArgsStateView, toks: Seq<Seq<u8>>, k: int)
    requires
        0 <= k <= toks.len(),
        spec_fold(st, toks.subrange(0, k)) is Err,
    ensures
        spec_fold(st, toks) == spec_fold(st, toks.subrange(0, k)),
    decreases k,
{
    reveal_with_fuel(spec_fold, 2);
    if k == 0 {
        assert(spec_fold(st, toks.subrange(0, 0)) == Ok::<ArgsStateView, CmdlineError>(st));
    } else {
        let p = toks.subrange(0, k);
        assert(p[0] == toks[0]);
        match spec_step(st, toks[0]) {
            Ok(st2) => {
                assert(p.drop_first() =~= toks.drop_first().subrange(0, k - 1));
                lemma_fold_error_prefix(st2, toks.drop_first(), k - 1);
            },
            Err(_) => {},
        }
    }
}

/// The state before any token.
pub open spec fn spec_initial_state() -> ArgsStateView {
    ArgsStateView {
        verbosity: None,
        init: None,
        root_source: None,
        fstype: None,
        rw: false,
        opt_state: OptStateView {
            flags: crate::flags::spec_empty_flags(),
            options: None,
        },
        resume: None,
        params: Seq::empty(),
    }
}

/// The tokens of a raw command line: trimmed, then split on spaces.
pub open spec fn spec_cmdline_tokens(raw: Seq<u8>) -> Seq<Seq<u8>> {
    spec_split(spec_trim(raw), 32)
}

impl ArgsState {
    /// The state before any token.
    pub fn new() -> (r: ArgsState)
        ensures
            r@ == spec_initial_state(),
    {
        let r = ArgsState {
            verbosity: None,
            init: None,
            root: RootOpts::builder(),
            resume: None,
            params: ModParams::new(),
        };
        r
    }

    /// Which handler a key goes to.
    #[verifier::rlimit(50)]
    fn classify_key(key: &[u8]) -> (k: KeyKind)
        ensures
            k == spec_key_kind(key@),
    {
        proof {
            reveal(spec_key_kind);
        }
        if crate::bytes::bytes_eq(key, lit::lit_ignited_log().as_slice()) {
            KeyKind::IgnitedLog
        } else if crate::bytes::bytes_eq(key, lit::lit_booster_log().as_slice()) {
            KeyKind::BoosterLog
        } else if crate::bytes::bytes_eq(key, lit::lit_booster_debug().as_slice()) {
            KeyKind::BoosterDebug
        } else if crate::bytes::bytes_eq(key, lit::lit_quiet().as_slice()) {
            KeyKind::Quiet
        } else if crate::bytes::bytes_eq(key, lit::lit_root().as_slice()) {
            KeyKind::Root
        } else if crate::bytes::bytes_eq(key, lit::lit_resume().as_slice()) {
            KeyKind::Resume
        } else if crate::bytes::bytes_eq(key, lit::lit_init().as_slice()) {
            KeyKind::Init
        } else if crate::bytes::bytes_eq(key, lit::lit_rootfstype().as_slice()) {
            KeyKind::RootFsType
        } else if crate::bytes::bytes_eq(key, lit::lit_rootflags().as_slice()) {
            KeyKind::RootFlags
        } else if crate::bytes::bytes_eq(key, lit::lit_ro().as_slice()) {
            KeyKind::Ro
        } else if crate::bytes::bytes_eq(key, lit::lit_rw().as_slice()) {
            KeyKind::Rw
        } else if crate::bytes::bytes_eq(key, lit::lit_rd_luks_options().as_slice()) {
            KeyKind::LuksReserved
        } else if crate::bytes::bytes_eq(key, lit::lit_rd_luks_name().as_slice()) {
            KeyKind::LuksReserved
        } else if crate::bytes::bytes_eq(key, lit::lit_rd_luks_uuid().as_slice()) {
            KeyKind::LuksReserved
        } else {
            KeyKind::Other
        }
    }

    /// Apply the verbosity spellings of one token value, first wins;
    /// each spelling's diagnostic joins the deferred buffer.
    fn apply_levels(&mut self, kmsg: &mut KmsgBuf, key: &[u8], items: &Vec<Vec<u8>>, skip_empty: bool)
        requires
            !old(kmsg).flushed,
        ensures
            *final(self) == (ArgsState {
                verbosity: spec_apply_levels(old(self).verbosity, items.deep_view()),
                ..*old(self)
            }),
            !final(kmsg).flushed,
            final(kmsg).threshold == old(kmsg).threshold,
            spec_queue_grew(
                old(kmsg).queued@,
                final(kmsg).queued@,
                spec_level_list_logs(key@, items.deep_view(), skip_empty),
            ),
    {
        let ghost all = items.deep_view();
        proof {
            lemma_grew_refl(old(kmsg).queued@);
            assert(all.subrange(0, 0) =~= Seq::<Seq<u8>>::empty());
        }
        let mut i: usize = 0;
        while i < items.len()
            invariant
                i <= items@.len(),
                all == items.deep_view(),
                all.len() == items@.len(),
                self.verbosity == spec_apply_levels(old(self).verbosity, all.subrange(0, i as int)),
                self.init == old(self).init,
                self.root == old(self).root,
                self.resume == old(self).resume,
                self.params == old(self).params,
                !kmsg.flushed,
                kmsg.threshold == old(kmsg).threshold,
                spec_queue_grew(
                    old(kmsg).queued@,
                    kmsg.queued@,
                    spec_level_list_logs(key@, all.subrange(0, i as int), skip_empty),
                ),
            decreases items@.len() - i,
        {
            proof {
                assert(all.subrange(0, i + 1) =~= all.subrange(0, i as int).push(all[i as int]));
                lemma_apply_levels_snoc(old(self).verbosity, all.subrange(0, i as int), all[
                    i as int]);
                lemma_level_list_logs_snoc(key@, all.subrange(0, i as int), all[i as int],
                    skip_empty);
            }
            let item: &[u8] = items[i].as_slice();
            assert(item@ == all[i as int]);
            let ghost before_q = kmsg.queued@;
            if skip_empty && item.len() == 0 {
                proof {
                    lemma_grew_refl(kmsg.queued@);
                    assert(spec_level_list_logs(key@, all.subrange(0, i + 1), skip_empty)
                        =~= spec_level_list_logs(key@, all.subrange(0, i as int), skip_empty)
                        + Seq::<(VerbosityLevel, Seq<u8>)>::empty());
                }
            } else {
                match VerbosityLevel::try_from_token(item) {
                    Some(l) => {
                        if self.verbosity.is_none() {
                            self.verbosity = Some(l);
                        }
                        proof {
                            lemma_grew_refl(kmsg.queued@);
                            assert(spec_level_item_logs(key@, item@) =~= Seq::<(
                                VerbosityLevel,
                                Seq<u8>,
                            )>::empty());
                        }
                    },
                    None => {
                        if crate::bytes::bytes_eq(item, lit::lit_console().as_slice()) {
                            let mut msg = sub_vec(key, 0, key.len());
                            push_all(&mut msg, lit::lit_console_ignored().as_slice());
                            proof {
                                assert(msg@ =~= key@ + lit::spec_console_ignored());
                            }
                            push_log(kmsg, VerbosityLevel::Debug, msg);
                        } else {
                            let mut msg = lit::lit_unknown_pre();
                            push_all(&mut msg, key);
                            push_all(&mut msg, lit::lit_key_mid().as_slice());
                            push_all(&mut msg, item);
                            proof {
                                assert(msg@ =~= spec_unknown_level_msg(key@, item@));
                            }
                            push_log(kmsg, VerbosityLevel::Warn, msg);
                        }
                        proof {
                            assert(spec_queue_grew(before_q, kmsg.queued@, spec_level_item_logs(
                                key@,
                                item@,
                            )));
                        }
                    },
                }
            }
            proof {
                lemma_grew_trans(
                    old(kmsg).queued@,
                    before_q,
                    kmsg.queued@,
                    spec_level_list_logs(key@, all.subrange(0, i as int), skip_empty),
                    if skip_empty && all[i as int].len() == 0 {
                        Seq::empty()
                    } else {
                        spec_level_item_logs(key@, all[i as int])
                    },
                );
            }
            i += 1;
        }
        proof {
            assert(all.subrange(0, all.len() as int) =~= all);
        }
    }

    /// Apply one token with a verbosity key.
    #[verifier::rlimit(100)]
    fn apply_verbosity_key(
        &mut self,
        kmsg: &mut KmsgBuf,
        Ghost(tok): Ghost<Seq<u8>>,
        kind: KeyKind,
        key: Vec<u8>,
        val: Option<Vec<u8>>,
    )
        requires
            !old(kmsg).flushed,
            key@ == spec_key_value(tok).0,
            kind == spec_key_kind(spec_key_value(tok).0),
            kind == KeyKind::IgnitedLog || kind == KeyKind::BoosterLog || kind
                == KeyKind::BoosterDebug || kind == KeyKind::Quiet,
            (match val {
                Some(v) => spec_key_value(tok).1 == Some(v@),
                None => spec_key_value(tok).1 is None,
            }),
        ensures
            spec_step(old(self)@, tok) == Ok::<ArgsStateView, CmdlineError>(final(self)@),
            !final(kmsg).flushed,
            final(kmsg).threshold == old(kmsg).threshold,
            spec_queue_grew(old(kmsg).queued@, final(kmsg).queued@, spec_token_logs(tok)),
    {
        proof {
            reveal_with_fuel(spec_level_list_logs, 3);
        }
        match kind {
            KeyKind::IgnitedLog => {
                match val {
                    Some(v) => {
                        let ghost vv = v@;
                        let mut items: Vec<Vec<u8>> = Vec::new();
                        items.push(v);
                        proof {
                            assert(items.deep_view() =~~= seq![spec_key_value(tok).1.unwrap()]);
                        }
                        self.apply_levels(kmsg, key.as_slice(), &items, false);
                        proof {
                            assert(items.deep_view().drop_first() =~= Seq::<Seq<u8>>::empty());
                            assert(spec_level_list_logs(key@, items.deep_view(), false)
                                =~= spec_level_item_logs(key@, vv));
                        }
                    },
                    None => {
                        self.warn_unknown_empty(kmsg, Ghost(tok), &key);
                    },
                }
            },
            KeyKind::BoosterLog => {
                match val {
                    Some(v) => {
                        let items = split_on(v.as_slice(), 44);
                        self.apply_levels(kmsg, key.as_slice(), &items, true);
                    },
                    None => {
                        self.warn_unknown_empty(kmsg, Ghost(tok), &key);
                    },
                }
            },
            KeyKind::BoosterDebug => {
                if self.verbosity.is_none() {
                    self.verbosity = Some(VerbosityLevel::Debug);
                }
                push_log(kmsg, VerbosityLevel::Debug, lit::lit_booster_deprecated());
            },
            _ => {
                if self.verbosity.is_none() {
                    self.verbosity = Some(VerbosityLevel::Error);
                }
                proof {
                    lemma_grew_refl(kmsg.queued@);
                    assert(spec_token_logs(tok) =~= Seq::<(VerbosityLevel, Seq<u8>)>::empty());
                }
            },
        }
    }

    /// Queue the warning for a verbosity key given no value.
    fn warn_unknown_empty(&mut self, kmsg: &mut KmsgBuf, Ghost(tok): Ghost<Seq<u8>>, key: &Vec<u8>)
        requires
            !old(kmsg).flushed,
            key@ == spec_key_value(tok).0,
        ensures
            *final(self) == *old(self),
            !final(kmsg).flushed,
            final(kmsg).threshold == old(kmsg).threshold,
            spec_queue_grew(
                old(kmsg).queued@,
                final(kmsg).queued@,
                seq![
                    (
                        VerbosityLevel::Warn,
                        spec_unknown_level_msg(spec_key_value(tok).0, lit::spec_empty_marker()),
                    ),
                ],
            ),
    {
        let mut msg = lit::lit_unknown_pre();
        push_all(&mut msg, key.as_slice());
        push_all(&mut msg, lit::lit_key_mid().as_slice());
        push_all(&mut msg, lit::lit_empty_marker().as_slice());
        proof {
            assert(msg@ =~= spec_unknown_level_msg(key@, lit::spec_empty_marker()));
        }
        push_log(kmsg, VerbosityLevel::Warn, msg);
    }

    /// Queue the warning for a key given no value to act on.
    fn warn_empty_value(&mut self, kmsg: &mut KmsgBuf, Ghost(tok): Ghost<Seq<u8>>, key: &Vec<u8>)
        requires
            !old(kmsg).flushed,
            key@ == spec_key_value(tok).0,
        ensures
            *final(self) == *old(self),
            !final(kmsg).flushed,
            final(kmsg).threshold == old(kmsg).threshold,
            spec_queue_grew(
                old(kmsg).queued@,
                final(kmsg).queued@,
                seq![
                    (
                        VerbosityLevel::Warn,
                        spec_key_value(tok).0 + lit::spec_empty_value_suffix(),
                    ),
                ],
            ),
    {
        let mut msg = sub_vec(key.as_slice(), 0, key.len());
        push_all(&mut msg, lit::lit_empty_value_suffix().as_slice());
        proof {
            assert(msg@ =~= key@ + lit::spec_empty_value_suffix());
        }
        push_log(kmsg, VerbosityLevel::Warn, msg);
    }

    /// Queue the warning for a token that is no recognized key and no
    /// module parameter.
    fn warn_invalid_key(&mut self, kmsg: &mut KmsgBuf, Ghost(tok): Ghost<Seq<u8>>, key: &Vec<u8>)
        requires
            !old(kmsg).flushed,
            key@ == spec_key_value(tok).0,
        ensures
            *final(self) == *old(self),
            !final(kmsg).flushed,
            final(kmsg).threshold == old(kmsg).threshold,
            spec_queue_grew(
                old(kmsg).queued@,
                final(kmsg).queued@,
                seq![
                    (VerbosityLevel::Warn, lit::spec_invalid_key_pre() + spec_key_value(tok).0),
                ],
            ),
    {
        let mut msg = lit::lit_invalid_key_pre();
        push_all(&mut msg, key.as_slice());
        proof {
            assert(msg@ =~= lit::spec_invalid_key_pre() + key@);
        }
        push_log(kmsg, VerbosityLevel::Warn, msg);
    }

    /// Apply one token with a root, resume or init key.
    #[verifier::rlimit(100)]
    fn apply_source_key(
        &mut self,
        kmsg: &mut KmsgBuf,
        Ghost(tok): Ghost<Seq<u8>>,
        kind: KeyKind,
        key: Vec<u8>,
        val: Option<Vec<u8>>,
    ) -> (r: Result<(), CmdlineError>)
        requires
            !old(kmsg).flushed,
            key@ == spec_key_value(tok).0,
            kind == spec_key_kind(spec_key_value(tok).0),
            kind == KeyKind::Root || kind == KeyKind::Resume || kind == KeyKind::Init,
            (match val {
                Some(v) => spec_key_value(tok).1 == Some(v@),
                None => spec_key_value(tok).1 is None,
            }),
        ensures
            match r {
                Ok(()) => spec_step(old(self)@, tok) == Ok::<ArgsStateView, CmdlineError>(
                    final(self)@,
                ),
                Err(e) => spec_step(old(self)@, tok) == Err::<ArgsStateView, CmdlineError>(e)
                    && *final(self) == *old(self),
            },
            !final(kmsg).flushed,
            final(kmsg).threshold == old(kmsg).threshold,
            spec_queue_grew(old(kmsg).queued@, final(kmsg).queued@, spec_token_logs(tok)),
    {
        if val.is_none() {
            self.warn_empty_value(kmsg, Ghost(tok), &key);
            return Ok(());
        }
        proof {
            lemma_grew_refl(kmsg.queued@);
            assert(spec_token_logs(tok) =~= Seq::<(VerbosityLevel, Seq<u8>)>::empty());
        }
        match kind {
            KeyKind::Root => {
                match val {
                    Some(v) => match PartitionSourceBuilder::parse(v.as_slice()) {
                        Some(src) => {
                            self.root.source(src);
                            Ok(())
                        },
                        None => Err(CmdlineError::BadRootValue),
                    },
                    None => Ok(()),
                }
            },
            KeyKind::Resume => {
                match val {
                    Some(v) => match PartitionSourceBuilder::parse(v.as_slice()) {
                        Some(src) => {
                            if self.resume.is_none() {
                                self.resume = Some(src);
                            }
                            Ok(())
                        },
                        None => Err(CmdlineError::BadResumeValue),
                    },
                    None => Ok(()),
                }
            },
            _ => {
                match val {
                    Some(v) => {
                        if crate::bytes::contains_byte(v.as_slice(), 0) {
                            Err(CmdlineError::BadInitPath)
                        } else {
                            if self.init.is_none() {
                                self.init = Some(v);
                            }
                            Ok(())
                        }
                    },
                    None => Ok(()),
                }
            },
        }
    }

    /// Apply one token with a mount or module key.
    #[verifier::rlimit(100)]
    fn apply_mount_key(
        &mut self,
        kmsg: &mut KmsgBuf,
        Ghost(tok): Ghost<Seq<u8>>,
        kind: KeyKind,
        key: Vec<u8>,
        val: Option<Vec<u8>>,
    )
        requires
            !old(kmsg).flushed,
            kind == spec_key_kind(spec_key_value(tok).0),
            key@ == spec_key_value(tok).0,
            kind == KeyKind::RootFsType || kind == KeyKind::RootFlags || kind == KeyKind::Ro
                || kind == KeyKind::Rw || kind == KeyKind::LuksReserved || kind == KeyKind::Other,
            (match val {
                Some(v) => spec_key_value(tok).1 == Some(v@),
                None => spec_key_value(tok).1 is None,
            }),
        ensures
            spec_step(old(self)@, tok) == Ok::<ArgsStateView, CmdlineError>(final(self)@),
            !final(kmsg).flushed,
            final(kmsg).threshold == old(kmsg).threshold,
            spec_queue_grew(old(kmsg).queued@, final(kmsg).queued@, spec_token_logs(tok)),
    {
        match kind {
            KeyKind::RootFsType => {
                match val {
                    Some(v) => {
                        self.root.fstype(v);
                        proof {
                            lemma_grew_refl(kmsg.queued@);
                            assert(spec_token_logs(tok) =~= Seq::<(VerbosityLevel, Seq<u8>)>::empty());
                        }
                    },
                    None => {
                        self.warn_empty_value(kmsg, Ghost(tok), &key);
                    },
                }
            },
            KeyKind::RootFlags => {
                match val {
                    Some(v) => {
                        self.root.add_opts(v.as_slice());
                        proof {
                            lemma_grew_refl(kmsg.queued@);
                            assert(spec_token_logs(tok) =~= Seq::<(VerbosityLevel, Seq<u8>)>::empty());
                        }
                    },
                    None => {
                        self.warn_empty_value(kmsg, Ghost(tok), &key);
                    },
                }
            },
            KeyKind::Ro => {
                self.root.ro();
                proof {
                    lemma_grew_refl(kmsg.queued@);
                    assert(spec_token_logs(tok) =~= Seq::<(VerbosityLevel, Seq<u8>)>::empty());
                }
            },
            KeyKind::Rw => {
                self.root.rw();
                proof {
                    lemma_grew_refl(kmsg.queued@);
                    assert(spec_token_logs(tok) =~= Seq::<(VerbosityLevel, Seq<u8>)>::empty());
                }
            },
            KeyKind::LuksReserved => {
                proof {
                    lemma_grew_refl(kmsg.queued@);
                    assert(spec_token_logs(tok) =~= Seq::<(VerbosityLevel, Seq<u8>)>::empty());
                }
            },
            _ => {
                match val {
                    Some(v) => {
                        match find_byte(key.as_slice(), 46) {
                            Some(i) => {
                                let module = sub_vec(key.as_slice(), 0, i);
                                let klen = key.len();
                                assert(i < key@.len() && key@.len() == klen);
                                let param = sub_vec(key.as_slice(), i + 1, klen);
                                self.params.insert(
                                    module.as_slice(),
                                    param.as_slice(),
                                    v.as_slice(),
                                );
                                proof {
                                    let keyv = spec_key_value(tok).0;
                                    assert(module@ == keyv.subrange(0, i as int));
                                    assert(param@ == keyv.skip(i + 1));
                                    lemma_grew_refl(kmsg.queued@);
                                    assert(spec_token_logs(tok) =~= Seq::<(
                                        VerbosityLevel,
                                        Seq<u8>,
                                    )>::empty());
                                }
                            },
                            None => {
                                self.warn_invalid_key(kmsg, Ghost(tok), &key);
                            },
                        }
                    },
                    None => {
                        self.warn_invalid_key(kmsg, Ghost(tok), &key);
                    },
                }
            },
        }
    }

    /// Apply one token: the state step, and the token's diagnostics
    /// joining the deferred buffer.
    fn apply_token(&mut self, kmsg: &mut KmsgBuf, tok: &[u8]) -> (r: Result<(), CmdlineError>)
        requires
            !old(kmsg).flushed,
        ensures
            match r {
                Ok(()) => spec_step(old(self)@, tok@) == Ok::<ArgsStateView, CmdlineError>(
                    final(self)@,
                ),
                Err(e) => spec_step(old(self)@, tok@) == Err::<ArgsStateView, CmdlineError>(e)
                    && *final(self) == *old(self),
            },
            !final(kmsg).flushed,
            final(kmsg).threshold == old(kmsg).threshold,
            spec_queue_grew(old(kmsg).queued@, final(kmsg).queued@, spec_token_logs(tok@)),
    {
        let (key, val) = match find_byte(tok, 61) {
            Some(i) => {
                assert(i < tok@.len() && tok@.len() == tok.len());
                let k = sub_vec(tok, 0, i);
                let v = sub_vec(tok, i + 1, tok.len());
                proof {
                    assert(k@ == spec_key_value(tok@).0);
                    assert(spec_key_value(tok@).1 == Some(v@));
                }
                (k, Some(v))
            },
            None => {
                let k = sub_vec(tok, 0, tok.len());
                proof {
                    assert(k@ =~= tok@);
                }
                (k, None)
            },
        };
        let kind = Self::classify_key(key.as_slice());
        match kind {
            KeyKind::IgnitedLog | KeyKind::BoosterLog | KeyKind::BoosterDebug | KeyKind::Quiet => {
                self.apply_verbosity_key(kmsg, Ghost(tok@), kind, key, val);
                Ok(())
            },
            KeyKind::Root | KeyKind::Resume | KeyKind::Init => {
                self.apply_source_key(kmsg, Ghost(tok@), kind, key, val)
            },
            _ => {
                self.apply_mount_key(kmsg, Ghost(tok@), kind, key, val);
                Ok(())
            },
        }
    }
}

/// The whole command line parsed into its arguments.
#[derive(Debug, Clone, PartialEq, Eq)]
pub struct CmdlineArgs {
    pub init: Vec<u8>,
    pub root_opts: RootOptsBuilder,
    pub resume_source: Option<PartitionSourceBuilder>,
    pub mod_params: ModParams,
}

impl CmdlineArgs {
    /// The path of the init to hand off to.
    pub fn init(&self) -> (r: &Vec<u8>)
        ensures
            r@ == self.init@,
    {
        &self.init
    }

    /// The root mount settings gathered so far.
    pub fn root_opts(&self) -> (r: &RootOptsBuilder)
        ensures
            r == self.root_opts,
    {
        &self.root_opts
    }

    /// The hibernation resume source, if one was given.
    pub fn resume_source(&self) -> (r: Option<&PartitionSourceBuilder>)
        ensures
            match r {
                Some(s) => self.resume_source == Some(*s),
                None => self.resume_source is None,
            },
    {
        self.resume_source.as_ref()
    }

    /// The module parameters gathered from the command line.
    pub fn mod_params(&self) -> (r: &ModParams)
        ensures
            r == self.mod_params,
    {
        &self.mod_params
    }

    /// Parse the split command line tokens. On success the buffered
    /// log entries are flushed with the first verbosity level that a
    /// token set, or the default, and the framed lines to write come
    /// back with the arguments; on failure the buffer keeps deferring.
    pub fn parse_inner(kmsg: &mut KmsgBuf, tokens: &Vec<Vec<u8>>) -> (r: Result<
        (CmdlineArgs, Vec<Vec<u8>>),
        CmdlineError,
    >)
        requires
            !old(kmsg).flushed,
        ensures
            match r {
                Ok((args, lines)) => {
                    &&& spec_fold(spec_initial_state(), tokens.deep_view()) matches Ok(st)
                    &&& spec_fold(spec_initial_state(), tokens.deep_view()) == Ok::<
                        ArgsStateView,
                        CmdlineError,
                    >(st)
                    &&& args.init@ == (if st.init is Some {
                        st.init.unwrap()
                    } else {
                        lit::spec_sbin_init()
                    })
                    &&& (match args.root_opts.source {
                        Some(s) => st.root_source == Some(s@),
                        None => st.root_source is None,
                    })
                    &&& (match args.root_opts.fstype {
                        Some(f) => st.fstype == Some(f@),
                        None => st.fstype is None,
                    })
                    &&& args.root_opts.rw == st.rw
                    &&& args.root_opts.flags == st.opt_state.flags
                    &&& (match args.root_opts.options {
                        Some(o) => st.opt_state.options == Some(o@),
                        None => st.opt_state.options is None,
                    })
                    &&& (match args.resume_source {
                        Some(s) => st.resume == Some(s@),
                        None => st.resume is None,
                    })
                    &&& args.mod_params@ == st.params
                    &&& final(kmsg).flushed
                    &&& final(kmsg).threshold == (if st.verbosity is Some {
                        st.verbosity.unwrap()
                    } else {
                        VerbosityLevel::Info
                    })
                    &&& lines.deep_view() == spec_flush_lines(
                        old(kmsg).queued@,
                        final(kmsg).threshold,
                    ) + spec_flush_pairs(
                        spec_fold_logs(spec_initial_state(), tokens.deep_view()),
                        final(kmsg).threshold,
                    )
                },
                Err(e) => {
                    &&& spec_fold(spec_initial_state(), tokens.deep_view()) == Err::<
                        ArgsStateView,
                        CmdlineError,
                    >(e)
                    &&& !final(kmsg).flushed
                },
            },
    {
        let ghost all = tokens.deep_view();
        let mut st = ArgsState::new();
        proof {
            lemma_grew_refl(old(kmsg).queued@);
            assert(all.subrange(0, 0) =~= Seq::<Seq<u8>>::empty());
        }
        let mut i: usize = 0;
        while i < tokens.len()
            invariant
                i <= tokens@.len(),
                all == tokens.deep_view(),
                all.len() == tokens@.len(),
                spec_fold(spec_initial_state(), all.subrange(0, i as int)) == Ok::<
                    ArgsStateView,
                    CmdlineError,
                >(st@),
                !kmsg.flushed,
                !old(kmsg).flushed,
                kmsg.threshold == old(kmsg).threshold,
                spec_queue_grew(
                    old(kmsg).queued@,
                    kmsg.queued@,
                    spec_fold_logs(spec_initial_state(), all.subrange(0, i as int)),
                ),
            decreases tokens@.len() - i,
        {
            proof {
                assert(all.subrange(0, i + 1) =~= all.subrange(0, i as int).push(all[i as int]));
                lemma_fold_snoc(spec_initial_state(), all.subrange(0, i as int), all[i as int]);
                lemma_fold_logs_snoc(spec_initial_state(), all.subrange(0, i as int), all[
                    i as int]);
            }
            let tok: &[u8] = tokens[i].as_slice();
            assert(tok@ == all[i as int]);
            let ghost before_q = kmsg.queued@;
            match st.apply_token(kmsg, tok) {
                Ok(()) => {},
                Err(e) => {
                    proof {
                        lemma_fold_error_prefix(spec_initial_state(), all, i + 1);
                    }
                    return Err(e);
                },
            }
            proof {
                lemma_grew_trans(
                    old(kmsg).queued@,
                    before_q,
                    kmsg.queued@,
                    spec_fold_logs(spec_initial_state(), all.subrange(0, i as int)),
                    spec_token_logs(all[i as int]),
                );
            }
            i += 1;
        }
        proof {
            assert(all.subrange(0, all.len() as int) =~= all);
        }
        let level = match st.verbosity {
            Some(l) => l,
            None => VerbosityLevel::Info,
        };
        proof {
            lemma_flush_grew(
                old(kmsg).queued@,
                kmsg.queued@,
                spec_fold_logs(spec_initial_state(), all),
                level,
            );
        }
        let lines = kmsg.flush_with_level(level);
        let init = match st.init {
            Some(p) => p,
            None => lit::lit_sbin_init(),
        };
        Ok(
            (
                CmdlineArgs {
                    init,
                    root_opts: st.root,
                    resume_source: st.resume,
                    mod_params: st.params,
                },
                lines,
            ),
        )
    }

    /// Parse a raw command line: trim it, split it on spaces, parse
    /// the tokens. The result is exactly what folding the tokens
    /// yields, with the deferred buffer flushed at the first-wins
    /// verbosity level.
    pub fn parse_cmdline(kmsg: &mut KmsgBuf, raw: &[u8]) -> (r: Result<
        (CmdlineArgs, Vec<Vec<u8>>),
        CmdlineError,
    >)
        requires
            !old(kmsg).flushed,
        ensures
            match r {
                Ok((args, lines)) => {
                    &&& spec_fold(spec_initial_state(), spec_cmdline_tokens(raw@)) matches Ok(st)
                    &&& spec_fold(spec_initial_state(), spec_cmdline_tokens(raw@)) == Ok::<
                        ArgsStateView,
                        CmdlineError,
                    >(st)
                    &&& args.init@ == (if st.init is Some {
                        st.init.unwrap()
                    } else {
                        lit::spec_sbin_init()
                    })
                    &&& (match args.root_opts.source {
                        Some(s) => st.root_source == Some(s@),
                        None => st.root_source is None,
                    })
                    &&& (match args.root_opts.fstype {
                        Some(f) => st.fstype == Some(f@),
                        None => st.fstype is None,
                    })
                    &&& args.root_opts.rw == st.rw
                    &&& args.root_opts.flags == st.opt_state.flags
                    &&& (match args.root_opts.options {
                        Some(o) => st.opt_state.options == Some(o@),
                        None => st.opt_state.options is None,
                    })
                    &&& (match args.resume_source {
                        Some(s) => st.resume == Some(s@),
                        None => st.resume is None,
                    })
                    &&& args.mod_params@ == st.params
                    &&& final(kmsg).flushed
                    &&& final(kmsg).threshold == (if st.verbosity is Some {
                        st.verbosity.unwrap()
                    } else {
                        VerbosityLevel::Info
                    })
                    &&& lines.deep_view() == spec_flush_lines(
                        old(kmsg).queued@,
                        final(kmsg).threshold,
                    ) + spec_flush_pairs(
                        spec_fold_logs(spec_initial_state(), spec_cmdline_tokens(raw@)),
                        final(kmsg).threshold,
                    )
                },
                Err(e) => {
                    &&& spec_fold(spec_initial_state(), spec_cmdline_tokens(raw@)) == Err::<
                        ArgsStateView,
                        CmdlineError,
                    >(e)
                    &&& !final(kmsg).flushed
                },
            },
            match spec_fold(spec_initial_state(), spec_cmdline_tokens(raw@)) {
                Ok(st) => r is Ok,
                Err(e) => r == Err::<(CmdlineArgs, Vec<Vec<u8>>), CmdlineError>(e),
            },
    {
        let trimmed = trim_ascii(raw);
        let tokens = split_on(trimmed.as_slice(), 32);
        proof {
            assert(tokens.deep_view() == spec_cmdline_tokens(raw@));
        }
        Self::parse_inner(kmsg, &tokens)
    }

    /// Supply the root source when the command line named none: GPT
    /// autodiscovery from the EFI loader variable's raw content.
    pub fn autodiscover_root_if_needed(
        &mut self,
        arch: KernelArch,
        efivar: Option<&Vec<u8>>,
    ) -> (r: Result<(), CmdlineError>)
        ensures
            old(self).root_opts.source is Some ==> (r is Ok && *final(self) == *old(self)),
            old(self).root_opts.source is None ==> (match efivar {
                Some(data) => match spec_efivar_guid(data@) {
                    Some(guid) => {
                        &&& r is Ok
                        &&& (match final(self).root_opts.source {
                            Some(s) => s@ == SourceView::PartType(
                                spec_root_type_guid(arch),
                                guid.0,
                            ),
                            None => false,
                        })
                    },
                    None => {
                        &&& r == Err::<(), CmdlineError>(CmdlineError::BadEfiVariable)
                        &&& *final(self) == *old(self)
                    },
                },
                None => {
                    &&& r == Err::<(), CmdlineError>(CmdlineError::NoRootSource)
                    &&& *final(self) == *old(self)
                },
            }),
    {
        if self.root_opts.get_source().is_some() {
            return Ok(());
        }
        match efivar {
            Some(data) => match EfiPartitionGptGuid::from_efivar_bytes(data.as_slice()) {
                Some(guid) => {
                    let src = PartitionSourceBuilder::autodiscover_root(arch, guid);
                    self.root_opts.source(src);
                    Ok(())
                },
                None => Err(CmdlineError::BadEfiVariable),
            },
            None => Err(CmdlineError::NoRootSource),
        }
    }
}

} // verus!
