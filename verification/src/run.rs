//! The run: dispatch, per-entry progress, failure policy, finalization.
//!
//! A run is created over a plan and drives every planned entry through the
//! stages reading → transforming → writing. The destination archive is
//! modelled as the ordered sequence of entries appended so far; appends
//! happen one at a time, in whatever order entries complete. The first
//! failure halts dispatch — no new entry is handed out — but entries
//! already dispatched may still complete and be written, and finalization
//! always succeeds, preserving everything written so far.

use vstd::prelude::*;
use vstd::pervasive::VecAdditionalExecFns;

verus! {

use crate::EntryError;
use crate::Stage;
use crate::plan::EntryInput;
use crate::plan::PlannedEntry;
use crate::plan::law_plan;
use crate::plan::spec_plan;
use crate::plan::spec_planned;
use crate::plan::spec_selected;
use crate::transform::CodecOutcome;
use crate::transform::spec_codec_error;
use crate::transform::transform_bytes;

/// Per-entry progress through the pipeline.
#[derive(Clone, Copy, Debug, PartialEq, Eq, Structural)]
pub enum EntryStatus {
    Pending,
    Active(Stage),
    Done,
    Failed(Stage),
}

/// One entry of the destination archive, as the run built it.
pub struct OutEntry {
    pub hash: u64,
    pub attr: u64,
    pub data: Vec<u8>,
}

/// The report a finished run hands back. A run exits cleanly only when it
/// is complete and nothing failed.
pub struct RunReport {
    pub entries_written: usize,
    pub total_bytes: u64,
    pub failed: bool,
    pub complete: bool,
}

/// How many entries of `s` are done.
pub open spec fn count_done(s: Seq<EntryStatus>) -> nat
    decreases s.len(),
{
    if s.len() == 0 {
        0
    } else {
        count_done(s.drop_last()) + (if s.last() is Done {
            1nat
        } else {
            0nat
        })
    }
}

/// The stage an active entry moves to next.
pub open spec fn next_stage(s: Stage) -> Stage {
    match s {
        Stage::Reading => Stage::Transforming,
        Stage::Transforming => Stage::Writing,
        Stage::Writing => Stage::Writing,
    }
}

proof fn lemma_count_done_zero(s: Seq<EntryStatus>)
    requires
        forall|i: int| 0 <= i < s.len() ==> !(#[trigger] s[i] is Done),
    ensures
        count_done(s) == 0,
    decreases s.len(),
{
    if s.len() > 0 {
        assert(forall|i: int|
            0 <= i < s.drop_last().len() ==> #[trigger] s.drop_last()[i] == s[i]);
        lemma_count_done_zero(s.drop_last());
    }
}

proof fn lemma_count_done_update(s: Seq<EntryStatus>, i: int, v: EntryStatus)
    requires
        0 <= i < s.len(),
        !(s[i] is Done),
    ensures
        count_done(s.update(i, v)) == count_done(s) + (if v is Done {
            1nat
        } else {
            0nat
        }),
    decreases s.len(),
{
    if i == s.len() - 1 {
        assert(s.update(i, v).drop_last() =~= s.drop_last());
        assert(s.update(i, v).last() == v);
    } else {
        assert(s.update(i, v).drop_last() =~= s.drop_last().update(i, v));
        assert(s.update(i, v).last() == s.last());
        lemma_count_done_update(s.drop_last(), i, v);
    }
}

/// The state of one transcoding run.
pub struct Run {
    entries: Vec<PlannedEntry>,
    status: Vec<EntryStatus>,
    next: usize,
    halted: bool,
    written: Vec<OutEntry>,
    w_src: Ghost<Seq<int>>,
    bytes_done: u64,
}

impl Run {
    /// The planned entries the run was created over.
    pub closed spec fn plan(self) -> Seq<PlannedEntry> {
        self.entries@
    }

    /// The progress of each planned entry.
    pub closed spec fn statuses(self) -> Seq<EntryStatus> {
        self.status@
    }

    /// The destination archive built so far, in completion order.
    pub closed spec fn archive(self) -> Seq<OutEntry> {
        self.written@
    }

    /// How many entries have been handed out so far.
    pub closed spec fn dispatched(self) -> int {
        self.next as int
    }

    /// Whether a failure has halted dispatch.
    pub closed spec fn is_halted(self) -> bool {
        self.halted
    }

    /// Total payload bytes appended, saturating at the counter's maximum.
    pub closed spec fn bytes(self) -> u64 {
        self.bytes_done
    }

    /// Well-formedness of a run:
    /// - one status per planned entry, dispatched in plan order;
    /// - the run is halted exactly when some entry has failed;
    /// - the destination archive holds exactly one entry per done status,
    ///   and each of its entries carries the hash and the planned attribute
    ///   bits of its own — done — planned entry.
    pub closed spec fn wf(self) -> bool {
        &&& self.status@.len() == self.entries@.len()
        &&& self.next <= self.entries@.len()
        &&& (forall|i: int|
            self.next <= i < self.status@.len() ==> #[trigger] self.status@[i] is Pending)
        &&& (self.halted <==> exists|i: int|
            0 <= i < self.status@.len() && #[trigger] self.status@[i] is Failed)
        &&& self.written@.len() == count_done(self.status@)
        &&& self.w_src@.len() == self.written@.len()
        &&& (forall|k: int|
            0 <= k < self.written@.len() ==> 0 <= #[trigger] self.w_src@[k]
                < self.entries@.len() && self.status@[self.w_src@[k]] is Done
                && self.written@[k].hash == self.entries@[self.w_src@[k]].hash
                && self.written@[k].attr == self.entries@[self.w_src@[k]].attr_out)
    }

    /// Starts a run over a plan: nothing dispatched, nothing written.
    pub fn new(plan: Vec<PlannedEntry>) -> (r: Run)
        ensures
            r.wf(),
            r.plan() == plan@,
            r.statuses().len() == plan@.len(),
            forall|i: int| 0 <= i < r.statuses().len() ==> #[trigger] r.statuses()[i] is Pending,
            r.dispatched() == 0,
            !r.is_halted(),
            r.archive().len() == 0,
            r.bytes() == 0,
    {
        let n = plan.len();
        let mut status: Vec<EntryStatus> = Vec::new();
        let mut i: usize = 0;
        while i < n
            invariant
                i <= n,
                status@.len() == i,
                forall|j: int| 0 <= j < i ==> #[trigger] status@[j] is Pending,
            decreases n - i,
        {
            status.push(EntryStatus::Pending);
            i = i + 1;
        }
        let r = Run {
            entries: plan,
            status,
            next: 0,
            halted: false,
            written: Vec::new(),
            w_src: Ghost(Seq::empty()),
            bytes_done: 0,
        };
        proof {
            lemma_count_done_zero(r.status@);
        }
        r
    }

    /// How many entries the plan holds.
    pub fn entry_count(&self) -> (n: usize)
        ensures
            n == self.plan().len(),
    {
        self.entries.len()
    }

    /// The class of planned entry `i`.
    pub fn class_of(&self, i: usize) -> (c: crate::EntryClass)
        requires
            i < self.plan().len(),
        ensures
            c == self.plan()[i as int].class,
    {
        self.entries[i].class
    }

    /// The index in the source entry list that planned entry `i` came from.
    pub fn src_of(&self, i: usize) -> (s: usize)
        requires
            i < self.plan().len(),
        ensures
            s == self.plan()[i as int].src_idx,
    {
        self.entries[i].src_idx
    }

    /// The content hash of planned entry `i`.
    pub fn hash_of(&self, i: usize) -> (h: u64)
        requires
            i < self.plan().len(),
        ensures
            h == self.plan()[i as int].hash,
    {
        self.entries[i].hash
    }

    /// The attribute bits the destination entry for `i` will carry.
    pub fn attr_out_of(&self, i: usize) -> (a: u64)
        requires
            i < self.plan().len(),
        ensures
            a == self.plan()[i as int].attr_out,
    {
        self.entries[i].attr_out
    }

    /// The progress of planned entry `i`: pending, its active stage, done,
    /// or the stage it failed in.
    pub fn status_of(&self, i: usize) -> (s: EntryStatus)
        requires
            i < self.statuses().len(),
        ensures
            s == self.statuses()[i as int],
    {
        self.status[i]
    }

    /// Whether a failure has halted dispatch.
    pub fn has_failed(&self) -> (r: bool)
        ensures
            r == self.is_halted(),
    {
        self.halted
    }

    /// How many destination entries have been written so far.
    pub fn written_count(&self) -> (n: usize)
        ensures
            n == self.archive().len(),
    {
        self.written.len()
    }

    /// Total payload bytes written so far (progress display only).
    pub fn bytes_written(&self) -> (n: u64)
        ensures
            n == self.bytes(),
    {
        self.bytes_done
    }

    /// Hands out the next entry to process, moved to the reading stage.
    /// Returns `None` once the run has halted on a failure — dispatch stops
    /// there — and when every entry has been dispatched.
    pub fn dispatch(&mut self) -> (r: Option<usize>)
        requires
            old(self).wf(),
        ensures
            final(self).wf(),
            final(self).plan() == old(self).plan(),
            final(self).archive() == old(self).archive(),
            final(self).bytes() == old(self).bytes(),
            final(self).is_halted() == old(self).is_halted(),
            match r {
                Option::Some(i) => !old(self).is_halted() && old(self).dispatched() < old(
                    self,
                ).plan().len() && i == old(self).dispatched() && final(self).dispatched() == old(
                    self,
                ).dispatched() + 1 && final(self).statuses() == old(self).statuses().update(
                    i as int,
                    EntryStatus::Active(Stage::Reading),
                ),
                Option::None => (old(self).is_halted() || old(self).dispatched() == old(
                    self,
                ).plan().len()) && *final(self) == *old(self),
            },
    {
        if self.halted || self.next >= self.entries.len() {
            return None;
        }
        let i = self.next;
        proof {
            assert(self.status@[i as int] is Pending);
            lemma_count_done_update(
                self.status@,
                i as int,
                EntryStatus::Active(Stage::Reading),
            );
        }
        self.status.set(i, EntryStatus::Active(Stage::Reading));
        self.next = i + 1;
        Some(i)
    }

    /// Moves a dispatched entry from reading to transforming, or from
    /// transforming to writing.
    pub fn advance(&mut self, i: usize)
        requires
            old(self).wf(),
            i < old(self).statuses().len(),
            old(self).statuses()[i as int] is Active,
            old(self).statuses()[i as int] != EntryStatus::Active(Stage::Writing),
        ensures
            final(self).wf(),
            final(self).plan() == old(self).plan(),
            final(self).archive() == old(self).archive(),
            final(self).bytes() == old(self).bytes(),
            final(self).dispatched() == old(self).dispatched(),
            final(self).is_halted() == old(self).is_halted(),
            final(self).statuses() == old(self).statuses().update(
                i as int,
                EntryStatus::Active(next_stage(old(self).statuses()[i as int]->Active_0)),
            ),
    {
        let stage = match self.status[i] {
            EntryStatus::Active(s) => s,
            _ => Stage::Reading,
        };
        let new_stage = match stage {
            Stage::Reading => Stage::Transforming,
            Stage::Transforming => Stage::Writing,
            Stage::Writing => Stage::Writing,
        };
        proof {
            lemma_count_done_update(self.status@, i as int, EntryStatus::Active(new_stage));
        }
        self.status.set(i, EntryStatus::Active(new_stage));
        proof {
            if old(self).halted {
                let j = choose|j: int|
                    0 <= j < old(self).status@.len() && #[trigger] old(self).status@[j] is Failed;
                assert(self.status@[j] is Failed);
            }
            assert forall|k: int| 0 <= k < self.written@.len() implies 0 <= #[trigger] self.w_src@[k]
                < self.entries@.len() && self.status@[self.w_src@[k]] is Done
                && self.written@[k].hash == self.entries@[self.w_src@[k]].hash
                && self.written@[k].attr == self.entries@[self.w_src@[k]].attr_out by {
                assert(0 <= old(self).w_src@[k] < old(self).entries@.len());
                assert(self.w_src@[k] != i);
            }
        }
    }

    /// Records that entry `i` failed at its current stage. The entry is
    /// marked failed and the run halts: no further entry will be
    /// dispatched, but nothing already written is rolled back.
    pub fn fail(&mut self, i: usize)
        requires
            old(self).wf(),
            i < old(self).statuses().len(),
            old(self).statuses()[i as int] is Active,
        ensures
            final(self).wf(),
            final(self).plan() == old(self).plan(),
            final(self).archive() == old(self).archive(),
            final(self).bytes() == old(self).bytes(),
            final(self).dispatched() == old(self).dispatched(),
            final(self).is_halted(),
            final(self).statuses() == old(self).statuses().update(
                i as int,
                EntryStatus::Failed(old(self).statuses()[i as int]->Active_0),
            ),
    {
        let stage = match self.status[i] {
            EntryStatus::Active(s) => s,
            _ => Stage::Reading,
        };
        proof {
            lemma_count_done_update(self.status@, i as int, EntryStatus::Failed(stage));
        }
        self.status.set(i, EntryStatus::Failed(stage));
        self.halted = true;
        proof {
            assert(self.status@[i as int] is Failed);
        }
    }

    /// Appends the transformed payload for entry `i` to the destination
    /// archive — with the entry's hash and its planned attribute bits — and
    /// marks the entry done. The byte counter grows by the payload length,
    /// saturating at its maximum: it serves progress display only.
    pub fn complete(&mut self, i: usize, data: Vec<u8>)
        requires
            old(self).wf(),
            i < old(self).statuses().len(),
            old(self).statuses()[i as int] == EntryStatus::Active(Stage::Writing),
        ensures
            final(self).wf(),
            final(self).plan() == old(self).plan(),
            final(self).dispatched() == old(self).dispatched(),
            final(self).is_halted() == old(self).is_halted(),
            final(self).statuses() == old(self).statuses().update(i as int, EntryStatus::Done),
            final(self).archive() == old(self).archive().push(
                (OutEntry {
                    hash: old(self).plan()[i as int].hash,
                    attr: old(self).plan()[i as int].attr_out,
                    data,
                }),
            ),
            final(self).bytes() == if old(self).bytes() + data@.len() <= u64::MAX {
                (old(self).bytes() + data@.len()) as u64
            } else {
                u64::MAX
            },
    {
        proof {
            lemma_count_done_update(self.status@, i as int, EntryStatus::Done);
        }
        let hash = self.entries[i].hash;
        let attr = self.entries[i].attr_out;
        let len64: u64 = data.len() as u64;
        self.status.set(i, EntryStatus::Done);
        self.written.push(OutEntry { hash, attr, data });
        proof {
            self.w_src@ = self.w_src@.push(i as int);
        }
        self.bytes_done = self.bytes_done.saturating_add(len64);
        proof {
            if old(self).halted {
                let j = choose|j: int|
                    0 <= j < old(self).status@.len() && #[trigger] old(self).status@[j] is Failed;
                assert(self.status@[j] is Failed);
            }
            assert forall|k: int| 0 <= k < self.written@.len() implies 0 <= #[trigger] self.w_src@[k]
                < self.entries@.len() && self.status@[self.w_src@[k]] is Done
                && self.written@[k].hash == self.entries@[self.w_src@[k]].hash
                && self.written@[k].attr == self.entries@[self.w_src@[k]].attr_out by {
                if k < self.written@.len() - 1 {
                    assert(self.w_src@[k] == old(self).w_src@[k]);
                    assert(self.written@[k] == old(self).written@[k]);
                    assert(0 <= old(self).w_src@[k] < old(self).entries@.len());
                    assert(self.w_src@[k] != i);
                } else {
                    assert(self.w_src@[k] == i as int);
                    assert(self.status@[i as int] is Done);
                }
            }
        }
    }

    /// Finalizes the run: consumes it — so finalization happens exactly
    /// once — and returns the destination archive together with the report.
    /// Finalization is total: it also succeeds after a failure, preserving
    /// every entry written so far.
    pub fn finish(self) -> (r: (Vec<OutEntry>, RunReport))
        requires
            self.wf(),
        ensures
            r.0@ == self.archive(),
            r.1.entries_written == self.archive().len(),
            r.1.entries_written == count_done(self.statuses()),
            r.1.total_bytes == self.bytes(),
            r.1.failed == self.is_halted(),
            r.1.failed <==> exists|j: int|
                0 <= j < self.statuses().len() && #[trigger] self.statuses()[j] is Failed,
            r.1.complete <==> count_done(self.statuses()) == self.plan().len(),
    {
        let complete = self.written.len() == self.entries.len();
        let report = RunReport {
            entries_written: self.written.len(),
            total_bytes: self.bytes_done,
            failed: self.halted,
            complete,
        };
        (self.written, report)
    }

    /// Drives one dispatched entry from the reading stage to its end,
    /// given what the outside collaborators produced for it: the raw bytes
    /// read from the source archive (`None` when the read failed), and the
    /// texture codec's verdict for a transformable entry.
    ///
    /// A pass-through entry's payload is written byte for byte as it was
    /// read; a transformable entry's payload is what the codec decoded;
    /// any failure marks the entry failed at its stage and halts dispatch,
    /// leaving the archive as it was.
    pub fn process(&mut self, i: usize, read: Option<Vec<u8>>, codec: CodecOutcome) -> (r: Option<
        EntryError,
    >)
        requires
            old(self).wf(),
            i < old(self).statuses().len(),
            old(self).statuses()[i as int] == EntryStatus::Active(Stage::Reading),
            read is None ==> codec is NotRun,
            read is Some ==> (old(self).plan()[i as int].class is PassThrough <==> codec
                is NotRun),
        ensures
            final(self).wf(),
            final(self).plan() == old(self).plan(),
            final(self).dispatched() == old(self).dispatched(),
            read is None ==> r == Option::Some(EntryError::ReadFailed) && final(self).statuses()
                == old(self).statuses().update(
                i as int,
                EntryStatus::Failed(Stage::Reading),
            ) && final(self).is_halted() && final(self).archive() == old(self).archive(),
            read is Some && old(self).plan()[i as int].class is PassThrough ==> r is None
                && final(self).statuses() == old(self).statuses().update(
                i as int,
                EntryStatus::Done,
            ) && final(self).archive().len() == old(self).archive().len() + 1 && final(self).archive().drop_last() == old(self).archive() && final(self).archive().last().hash
                == old(self).plan()[i as int].hash && final(self).archive().last().attr == old(
                self,
            ).plan()[i as int].attr_out && final(self).archive().last().data@ == read->0@ && final(self).is_halted() == old(self).is_halted(),
            read is Some && old(self).plan()[i as int].class is Transformable && codec
                is Decoded ==> r is None && final(self).statuses() == old(self).statuses().update(
                i as int,
                EntryStatus::Done,
            ) && final(self).archive().len() == old(self).archive().len() + 1 && final(self).archive().drop_last() == old(self).archive() && final(self).archive().last().hash
                == old(self).plan()[i as int].hash && final(self).archive().last().attr == old(
                self,
            ).plan()[i as int].attr_out && final(self).archive().last().data@
                == codec->Decoded_0@ && final(self).is_halted() == old(self).is_halted(),
            read is Some && old(self).plan()[i as int].class is Transformable && codec
                is Failed ==> r == Option::Some(spec_codec_error(codec->Failed_0)) && final(self).statuses() == old(self).statuses().update(
                i as int,
                EntryStatus::Failed(Stage::Transforming),
            ) && final(self).is_halted() && final(self).archive() == old(self).archive(),
    {
        match read {
            Option::None => {
                self.fail(i);
                Some(EntryError::ReadFailed)
            },
            Option::Some(data) => {
                self.advance(i);
                let class = self.class_of(i);
                let out = transform_bytes(class, data, codec);
                match out {
                    Result::Ok(bytes) => {
                        self.advance(i);
                        self.complete(i, bytes);
                        proof {
                            assert(self.statuses() =~= old(self).statuses().update(
                                i as int,
                                EntryStatus::Done,
                            ));
                            assert(self.archive().drop_last() =~= old(self).archive());
                        }
                        None
                    },
                    Result::Err(e) => {
                        self.fail(i);
                        proof {
                            assert(self.statuses() =~= old(self).statuses().update(
                                i as int,
                                EntryStatus::Failed(Stage::Transforming),
                            ));
                        }
                        Some(e)
                    },
                }
            },
        }
    }

    /// Law of partial results: at every well-formed state the run tracks
    /// one status per planned entry and dispatches in plan order, the
    /// destination archive holds exactly one entry per done planned entry,
    /// and the run is halted exactly when some entry failed.
    pub proof fn law_partial_result(self)
        requires
            self.wf(),
        ensures
            self.statuses().len() == self.plan().len(),
            0 <= self.dispatched() <= self.plan().len(),
            forall|i: int|
                self.dispatched() <= i < self.statuses().len() ==> #[trigger] self.statuses()[i]
                    is Pending,
            self.archive().len() == count_done(self.statuses()),
            self.is_halted() <==> exists|j: int|
                0 <= j < self.statuses().len() && #[trigger] self.statuses()[j] is Failed,
    {
    }

    /// Law of partial results, per written entry: every entry of the
    /// destination archive carries the hash and the planned attribute bits
    /// of a done planned entry — the returned index names it.
    pub proof fn law_written_entry(self, k: int) -> (j: int)
        requires
            self.wf(),
            0 <= k < self.archive().len(),
        ensures
            0 <= j < self.plan().len(),
            self.statuses()[j] is Done,
            self.archive()[k].hash == self.plan()[j].hash,
            self.archive()[k].attr == self.plan()[j].attr_out,
    {
        self.w_src@[k]
    }

    /// Law of attribute propagation, end to end: when the run's plan was
    /// built over `inputs`, every written entry traces back to a selected
    /// source entry — the returned index names it — whose hash it carries,
    /// and its attribute bits are that entry's bits when attribute cloning
    /// is on, the default bits when it is off.
    pub proof fn law_written_attr(
        self,
        inputs: Seq<EntryInput>,
        full_mode: bool,
        clone_attr: bool,
        k: int,
    ) -> (j: int)
        requires
            self.wf(),
            self.plan() == spec_plan(inputs, full_mode, clone_attr),
            inputs.len() <= usize::MAX,
            0 <= k < self.archive().len(),
        ensures
            0 <= j < inputs.len(),
            spec_selected(inputs[j], full_mode),
            self.archive()[k].hash == inputs[j].hash,
            self.archive()[k].attr == if clone_attr {
                inputs[j].attr
            } else {
                crate::DEFAULT_ATTR
            },
    {
        let p_idx = self.law_written_entry(k);
        law_plan(inputs, full_mode, clone_attr);
        let p = self.plan()[p_idx];
        assert(p == spec_planned(inputs[p.src_idx as int], p.src_idx as int, clone_attr));
        p.src_idx as int
    }
}

} // verus!
