//! Framing of kernel log lines and the deferred buffer that holds
//! them until the verbosity threshold is known.
//!
//! The actual writer to the log device lives outside the library; it
//! receives fully framed lines from here.

use vstd::prelude::*;
use crate::lit;
use crate::verbosity::{level_code, spec_emits, VerbosityLevel};

verus! {

/// A framed log line: `<LEVEL>ignited: MESSAGE` and a newline.
pub open spec fn spec_frame(level: VerbosityLevel, msg: Seq<u8>) -> Seq<u8> {
    seq![60u8, (48 + level_code(level)) as u8, 62u8] + lit::spec_program() + seq![58u8, 32u8] + msg
        + seq![10u8]
}

/// Frame one log line.
pub fn frame_entry(level: VerbosityLevel, msg: &[u8]) -> (out: Vec<u8>)
    ensures
        out@ == spec_frame(level, msg@),
{
    let mut out: Vec<u8> = Vec::new();
    out.push(60);
    out.push(48 + level.code());
    out.push(62);
    let name = lit::lit_program();
    crate::bytes::push_all(&mut out, name.as_slice());
    out.push(58);
    out.push(32);
    crate::bytes::push_all(&mut out, msg);
    out.push(10);
    proof {
        assert(out@ =~= spec_frame(level, msg@));
    }
    out
}

/// `q2` is `q1` with one entry of the given level and text appended.
pub open spec fn spec_queue_push(
    q1: Seq<BufEntry>,
    q2: Seq<BufEntry>,
    level: VerbosityLevel,
    text: Seq<u8>,
) -> bool {
    &&& q2.len() == q1.len() + 1
    &&& q2.subrange(0, q1.len() as int) == q1
    &&& q2.last().level == level
    &&& q2.last().text@ == text
}

/// `q2` is `q1` with these entries appended, in order.
pub open spec fn spec_queue_grew(
    q1: Seq<BufEntry>,
    q2: Seq<BufEntry>,
    logs: Seq<(VerbosityLevel, Seq<u8>)>,
) -> bool {
    &&& q2.len() == q1.len() + logs.len()
    &&& q2.subrange(0, q1.len() as int) == q1
    &&& forall|i: int|
        0 <= i < logs.len() ==> #[trigger] q2[q1.len() + i].level == logs[i].0 && q2[q1.len()
            + i].text@ == logs[i].1
}

/// One queued entry.
#[derive(Debug, Clone, PartialEq, Eq)]
pub struct BufEntry {
    pub level: VerbosityLevel,
    pub text: Vec<u8>,
}

/// The lines a queue yields once the threshold is known: the framed
/// form of every entry whose level passes, in arrival order.
pub open spec fn spec_flush_lines(es: Seq<BufEntry>, threshold: VerbosityLevel) -> Seq<Seq<u8>>
    decreases es.len(),
{
    if es.len() == 0 {
        Seq::empty()
    } else {
        let rest = spec_flush_lines(es.drop_first(), threshold);
        if spec_emits(es[0].level, threshold) {
            seq![spec_frame(es[0].level, es[0].text@)] + rest
        } else {
            rest
        }
    }
}

proof fn lemma_flush_lines_snoc(es: Seq<BufEntry>, e: BufEntry, threshold: VerbosityLevel)
    ensures
        spec_flush_lines(es.push(e), threshold) == if spec_emits(e.level, threshold) {
            spec_flush_lines(es, threshold).push(spec_frame(e.level, e.text@))
        } else {
            spec_flush_lines(es, threshold)
        },
    decreases es.len(),
{
    reveal_with_fuel(spec_flush_lines, 3);
    if es.len() == 0 {
        assert(es.push(e)[0] == e);
        assert(es.push(e).drop_first() =~= Seq::<BufEntry>::empty());
        if spec_emits(e.level, threshold) {
            assert(seq![spec_frame(e.level, e.text@)] + Seq::<Seq<u8>>::empty() =~= Seq::<
                Seq<u8>,
            >::empty().push(spec_frame(e.level, e.text@)));
        }
    } else {
        assert(es.push(e)[0] == es[0]);
        assert(es.push(e).drop_first() =~= es.drop_first().push(e));
        lemma_flush_lines_snoc(es.drop_first(), e, threshold);
        if spec_emits(e.level, threshold) {
            if spec_emits(es[0].level, threshold) {
                assert(seq![spec_frame(es[0].level, es[0].text@)] + spec_flush_lines(
                    es.drop_first(),
                    threshold,
                ).push(spec_frame(e.level, e.text@)) =~= (seq![
                    spec_frame(es[0].level, es[0].text@),
                ] + spec_flush_lines(es.drop_first(), threshold)).push(
                    spec_frame(e.level, e.text@),
                ));
            }
        }
    }
}

/// The lines a list of (level, text) pairs yields at a threshold.
pub open spec fn spec_flush_pairs(
    logs: Seq<(VerbosityLevel, Seq<u8>)>,
    threshold: VerbosityLevel,
) -> Seq<Seq<u8>>
    decreases logs.len(),
{
    if logs.len() == 0 {
        Seq::empty()
    } else {
        let rest = spec_flush_pairs(logs.drop_first(), threshold);
        if spec_emits(logs[0].0, threshold) {
            seq![spec_frame(logs[0].0, logs[0].1)] + rest
        } else {
            rest
        }
    }
}

/// A queue yields its entries' pairs.
proof fn lemma_flush_lines_are_pairs(q: Seq<BufEntry>, logs: Seq<(VerbosityLevel, Seq<u8>)>, threshold: VerbosityLevel)
    requires
        q.len() == logs.len(),
        forall|i: int|
            0 <= i < logs.len() ==> #[trigger] q[i].level == logs[i].0 && q[i].text@ == logs[i].1,
    ensures
        spec_flush_lines(q, threshold) == spec_flush_pairs(logs, threshold),
    decreases q.len(),
{
    if q.len() > 0 {
        assert forall|i: int|
            0 <= i < logs.drop_first().len() implies #[trigger] q.drop_first()[i].level
            == logs.drop_first()[i].0 && q.drop_first()[i].text@ == logs.drop_first()[i].1 by {
            assert(q.drop_first()[i] == q[i + 1]);
            assert(logs.drop_first()[i] == logs[i + 1]);
        }
        lemma_flush_lines_are_pairs(q.drop_first(), logs.drop_first(), threshold);
        assert(q[0].level == logs[0].0 && q[0].text@ == logs[0].1);
    }
}

/// Flushing a concatenation flushes the parts in order.
proof fn lemma_flush_lines_concat(q1: Seq<BufEntry>, q2: Seq<BufEntry>, threshold: VerbosityLevel)
    ensures
        spec_flush_lines(q1 + q2, threshold) == spec_flush_lines(q1, threshold)
            + spec_flush_lines(q2, threshold),
    decreases q1.len(),
{
    if q1.len() == 0 {
        assert(q1 + q2 =~= q2);
        assert(Seq::<Seq<u8>>::empty() + spec_flush_lines(q2, threshold) =~= spec_flush_lines(
            q2,
            threshold,
        ));
    } else {
        assert((q1 + q2)[0] == q1[0]);
        assert((q1 + q2).drop_first() =~= q1.drop_first() + q2);
        lemma_flush_lines_concat(q1.drop_first(), q2, threshold);
        if spec_emits(q1[0].level, threshold) {
            assert(seq![spec_frame(q1[0].level, q1[0].text@)] + (spec_flush_lines(
                q1.drop_first(),
                threshold,
            ) + spec_flush_lines(q2, threshold)) =~= (seq![
                spec_frame(q1[0].level, q1[0].text@),
            ] + spec_flush_lines(q1.drop_first(), threshold)) + spec_flush_lines(q2, threshold));
        }
    }
}

/// What a grown queue flushes: the old entries' lines, then the new
/// pairs' lines.
pub proof fn lemma_flush_grew(
    q1: Seq<BufEntry>,
    q2: Seq<BufEntry>,
    logs: Seq<(VerbosityLevel, Seq<u8>)>,
    threshold: VerbosityLevel,
)
    requires
        spec_queue_grew(q1, q2, logs),
    ensures
        spec_flush_lines(q2, threshold) == spec_flush_lines(q1, threshold) + spec_flush_pairs(
            logs,
            threshold,
        ),
{
    let suffix = q2.subrange(q1.len() as int, q2.len() as int);
    assert(q2 =~= q1 + suffix);
    lemma_flush_lines_concat(q1, suffix, threshold);
    assert forall|i: int|
        0 <= i < logs.len() implies #[trigger] suffix[i].level == logs[i].0 && suffix[i].text@
        == logs[i].1 by {
        assert(suffix[i] == q2[q1.len() + i]);
    }
    lemma_flush_lines_are_pairs(suffix, logs, threshold);
}

/// Buffers log entries until the verbosity threshold is known; after
/// the flush it frames entries directly.
#[derive(Debug, Clone, PartialEq, Eq)]
pub struct KmsgBuf {
    pub queued: Vec<BufEntry>,
    pub flushed: bool,
    pub threshold: VerbosityLevel,
}

impl KmsgBuf {
    /// A fresh buffer, still deferring.
    pub fn new() -> (r: KmsgBuf)
        ensures
            r.queued@ == Seq::<BufEntry>::empty(),
            !r.flushed,
            r.threshold == VerbosityLevel::Info,
    {
        let r = KmsgBuf { queued: Vec::new(), flushed: false, threshold: VerbosityLevel::Info };
        r
    }

    /// Log one entry. Before the flush it is queued and nothing comes
    /// back; after the flush the framed line comes back iff the level
    /// passes the threshold.
    pub fn log(&mut self, level: VerbosityLevel, text: &[u8]) -> (line: Option<Vec<u8>>)
        ensures
            final(self).flushed == old(self).flushed,
            final(self).threshold == old(self).threshold,
            old(self).flushed ==> {
                &&& final(self).queued@ == old(self).queued@
                &&& (match line {
                    Some(l) => spec_emits(level, old(self).threshold) && l@ == spec_frame(
                        level,
                        text@,
                    ),
                    None => !spec_emits(level, old(self).threshold),
                })
            },
            !old(self).flushed ==> {
                &&& spec_queue_push(old(self).queued@, final(self).queued@, level, text@)
                &&& line is None
            },
    {
        if self.flushed {
            if level.emits_at(&self.threshold) {
                Some(frame_entry(level, text))
            } else {
                None
            }
        } else {
            let entry = BufEntry { level, text: crate::bytes::sub_vec(text, 0, text.len()) };
            proof {
                assert(entry.text@ =~= text@);
            }
            self.queued.push(entry);
            proof {
                assert(final(self).queued@.subrange(0, old(self).queued@.len() as int) =~= old(
                    self,
                ).queued@);
            }
            None
        }
    }

    /// Log a debug entry.
    pub fn kdebug(&mut self, text: &[u8]) -> (line: Option<Vec<u8>>)
        ensures
            final(self).flushed == old(self).flushed,
            final(self).threshold == old(self).threshold,
            old(self).flushed ==> {
                &&& final(self).queued@ == old(self).queued@
                &&& (match line {
                    Some(l) => spec_emits(VerbosityLevel::Debug, old(self).threshold) && l@
                        == spec_frame(VerbosityLevel::Debug, text@),
                    None => !spec_emits(VerbosityLevel::Debug, old(self).threshold),
                })
            },
            !old(self).flushed ==> {
                &&& spec_queue_push(old(self).queued@, final(self).queued@, VerbosityLevel::Debug, text@)
                &&& line is None
            },
    {
        self.log(VerbosityLevel::Debug, text)
    }

    /// Log a warning entry.
    pub fn kwarn(&mut self, text: &[u8]) -> (line: Option<Vec<u8>>)
        ensures
            final(self).flushed == old(self).flushed,
            final(self).threshold == old(self).threshold,
            old(self).flushed ==> {
                &&& final(self).queued@ == old(self).queued@
                &&& (match line {
                    Some(l) => spec_emits(VerbosityLevel::Warn, old(self).threshold) && l@
                        == spec_frame(VerbosityLevel::Warn, text@),
                    None => !spec_emits(VerbosityLevel::Warn, old(self).threshold),
                })
            },
            !old(self).flushed ==> {
                &&& spec_queue_push(old(self).queued@, final(self).queued@, VerbosityLevel::Warn, text@)
                &&& line is None
            },
    {
        self.log(VerbosityLevel::Warn, text)
    }

    /// Commit the threshold and drain the queue: the lines to write,
    /// in arrival order, are exactly the queued entries whose level
    /// passes the threshold.
    pub fn flush_with_level(&mut self, level: VerbosityLevel) -> (lines: Vec<Vec<u8>>)
        ensures
            final(self).flushed,
            final(self).threshold == level,
            final(self).queued@ == Seq::<BufEntry>::empty(),
            lines.deep_view() == spec_flush_lines(old(self).queued@, level),
    {
        self.threshold = level;
        self.flushed = true;
        let mut lines: Vec<Vec<u8>> = Vec::new();
        let mut i: usize = 0;
        let n = self.queued.len();
        while i < n
            invariant
                i <= n,
                n == self.queued@.len(),
                self.queued@ == old(self).queued@,
                self.threshold == level,
                self.flushed,
                lines.deep_view() == spec_flush_lines(self.queued@.subrange(0, i as int), level),
            decreases n - i,
        {
            proof {
                assert(self.queued@.subrange(0, i + 1) =~= self.queued@.subrange(0, i as int).push(
                    self.queued@[i as int],
                ));
                lemma_flush_lines_snoc(self.queued@.subrange(0, i as int), self.queued@[i as int],
                    level);
            }
            let e = &self.queued[i];
            if e.level.emits_at(&level) {
                let line = frame_entry(e.level, e.text.as_slice());
                lines.push(line);
                proof {
                    assert(lines.deep_view() =~~= spec_flush_lines(self.queued@.subrange(0, i + 1),
                        level));
                }
            }
            i += 1;
        }
        proof {
            assert(self.queued@.subrange(0, n as int) =~= self.queued@);
        }
        self.queued = Vec::new();
        proof {
            assert(self.queued@ =~= Seq::<BufEntry>::empty());
        }
        lines
    }
}

} // verus!
