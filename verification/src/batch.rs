//! The batch orchestrator: one value that holds the descriptors of a batch,
//! where the work on each stands, the progress counters and the admission
//! gate. The caller does the filesystem and network work and reports each
//! event; every event is one transition of [`BatchView`].

use crate::checksum::{digest_hex, StreamingDigest};
use crate::descriptor::{file_views, Downloadable, DownloadableView};
use crate::error::{DownloadError, DownloadErrorView};
use crate::freshness::{deep_confirms, digest_for, plan, quick_check, LocalFile, Plan};
use crate::gate::AdmissionGate;
use crate::lemmas::{
    lemma_admission_valid, lemma_chunk_valid, lemma_deep_verdict_valid, lemma_failure_valid,
    lemma_finish_valid, lemma_local_check_valid, lemma_start_valid,
};
use crate::model::{
    fresh_slots, lemma_total_update, seed_total, transferring, BatchView, SlotView, StageView,
};
use crate::progress::{Aggregator, Progress};
use crate::transfer::{
    check_status, check_view, result_view, status_verdict, text_view, transfer_verdict,
    verify_transfer, TransferOutcome,
};
use vstd::prelude::*;

verus! {

/// The stage of the work on one descriptor, without its data.
#[derive(Debug, Clone, Copy, PartialEq, Eq, Structural)]
pub enum Phase {
    Pending,
    Verifying,
    Queued,
    Transferring,
    Done,
}

/// The phase of a stage.
pub open spec fn phase_of(stage: StageView) -> Phase {
    match stage {
        StageView::Pending => Phase::Pending,
        StageView::Verifying => Phase::Verifying,
        StageView::Queued => Phase::Queued,
        StageView::Transferring { .. } => Phase::Transferring,
        StageView::Done { .. } => Phase::Done,
    }
}

/// What a deep check led to.
#[derive(Debug, Clone, Copy, PartialEq, Eq, Structural)]
pub enum DeepReply {
    /// The content has the expected digest: the descriptor is fresh, and the
    /// snapshot is to be published.
    Confirmed(Progress),
    /// The content does not have the expected digest: the descriptor is
    /// queued for download.
    Rejected,
}

enum Stage {
    Pending,
    Verifying,
    Queued,
    Transferring(Option<StreamingDigest>, Ghost<Seq<u8>>),
    Done(TransferOutcome),
}

struct Slot {
    stage: Stage,
    credited: u64,
    completed: u64,
    counted: bool,
}

impl Slot {
    spec fn view(&self) -> SlotView {
        SlotView {
            stage: match self.stage {
                Stage::Pending => StageView::Pending,
                Stage::Verifying => StageView::Verifying,
                Stage::Queued => StageView::Queued,
                Stage::Transferring(_, received) => StageView::Transferring { received: received@ },
                Stage::Done(outcome) => StageView::Done { outcome: outcome@ },
            },
            credited: self.credited,
            completed: self.completed,
            counted: self.counted,
        }
    }

    /// The running digest, where there is one, is that of the payload so far
    /// under the algorithm the descriptor names.
    spec fn consistent(&self, file: DownloadableView) -> bool {
        match self.stage {
            Stage::Transferring(digest, received) => match (digest, file.checksum) {
                (Some(digest), Some(checksum)) => digest.algorithm() == checksum.algorithm
                    && digest.fed() == received@,
                (None, None) => true,
                _ => false,
            },
            _ => true,
        }
    }
}

spec fn slot_views(slots: Seq<Slot>) -> Seq<SlotView> {
    slots.map_values(|slot: Slot| slot@)
}

/// A batch of descriptors at work.
pub struct Batch {
    files: Vec<Downloadable>,
    slots: Vec<Slot>,
    counters: Aggregator,
    gate: AdmissionGate,
    deep_check: bool,
    skip_download: bool,
}

impl View for Batch {
    type V = BatchView;

    closed spec fn view(&self) -> BatchView {
        BatchView {
            files: file_views(self.files@),
            slots: slot_views(self.slots@),
            progress: self.counters@,
            limit: self.gate.limit(),
            in_flight: self.gate.in_flight(),
            deep_check: self.deep_check,
            skip_download: self.skip_download,
        }
    }
}

impl Batch {
    /// The running digests agree with the payloads received.
    pub closed spec fn digests_consistent(&self) -> bool {
        &&& self.slots.len() == self.files.len()
        &&& forall|i: int|
            0 <= i < self.slots.len() ==> (#[trigger] self.slots[i]).consistent(self.files[i]@)
    }

    /// The batch is a valid state of the machine.
    pub open spec fn wf(&self) -> bool {
        self@.valid() && self.digests_consistent()
    }

    /// A batch over `files`, every descriptor pending, with
    /// `concurrency_limit` permits for simultaneous transfers.
    pub fn new(
        files: Vec<Downloadable>,
        concurrency_limit: usize,
        deep_check: bool,
        skip_download: bool,
    ) -> (batch: Self)
        ensures
            batch.wf(),
            batch@ == BatchView::start(
                file_views(files@),
                concurrency_limit as nat,
                deep_check,
                skip_download,
            ),
    {
        let ghost views = file_views(files@);
        let mut slots: Vec<Slot> = Vec::new();
        let mut seed: u64 = 0;
        let mut i: usize = 0;
        while i < files.len()
            invariant
                i <= files.len(),
                views == file_views(files@),
                slots.len() == i,
                slot_views(slots@) == fresh_slots(views.take(i as int)),
                seed == seed_total(views.take(i as int)),
                forall|j: int| 0 <= j < i ==> (#[trigger] slots[j]).consistent(views[j]),
            decreases files.len() - i,
        {
            let declared = files[i].declared_size();
            let slot = Slot { stage: Stage::Pending, credited: declared, completed: 0, counted: false };
            proof {
                let next = views.take(i + 1);
                assert(next.drop_last() =~= views.take(i as int));
                let grown = slot_views(slots@.push(slot));
                assert forall|j: int| 0 <= j < grown.len() implies grown[j] == fresh_slots(
                    next,
                )[j] by {
                    if j < i {
                        assert(fresh_slots(views.take(i as int))[j] == fresh_slots(next)[j]);
                    }
                }
            }
            seed = seed.wrapping_add(declared);
            slots.push(slot);
            i = i + 1;
        }
        proof {
            assert(views.take(files.len() as int) =~= views);
            lemma_start_valid(views, concurrency_limit as nat, deep_check, skip_download);
        }
        let counters = Aggregator::new(files.len() as u64, seed);
        Batch {
            files,
            slots,
            counters,
            gate: AdmissionGate::new(concurrency_limit),
            deep_check,
            skip_download,
        }
    }

    /// The number of descriptors.
    pub fn len(&self) -> (len: usize)
        ensures
            len == self@.files.len(),
    {
        self.files.len()
    }

    /// The descriptor at position `i`.
    pub fn file(&self, i: usize) -> (file: Option<&Downloadable>)
        requires
            self.wf(),
        ensures
            match file {
                Some(file) => self@.has(i as int) && file@ == self@.files[i as int],
                None => !self@.has(i as int),
            },
    {
        if i < self.files.len() {
            Some(&self.files[i])
        } else {
            None
        }
    }

    /// The current reading of the progress counters.
    pub fn snapshot(&self) -> (progress: Progress)
        ensures
            progress == self@.progress,
    {
        self.counters.snapshot()
    }

    /// The number of transfers that hold a permit.
    pub fn in_flight(&self) -> (held: usize)
        ensures
            held == self@.in_flight,
    {
        self.gate.held()
    }

    /// The phase of the work on descriptor `i`.
    pub fn phase(&self, i: usize) -> (phase: Option<Phase>)
        requires
            self.wf(),
        ensures
            match phase {
                Some(phase) => self@.has(i as int) && phase == phase_of(self@.slots[i as int].stage),
                None => !self@.has(i as int),
            },
    {
        if i < self.slots.len() {
            Some(
                match self.slots[i].stage {
                    Stage::Pending => Phase::Pending,
                    Stage::Verifying => Phase::Verifying,
                    Stage::Queued => Phase::Queued,
                    Stage::Transferring(_, _) => Phase::Transferring,
                    Stage::Done(_) => Phase::Done,
                },
            )
        } else {
            None
        }
    }

    /// How the work on descriptor `i` ended, once it has.
    pub fn outcome(&self, i: usize) -> (outcome: Option<TransferOutcome>)
        requires
            self.wf(),
        ensures
            match outcome {
                Some(outcome) => self@.has(i as int) && self@.slots[i as int].stage
                    == (StageView::Done { outcome: outcome@ }),
                None => !(self@.has(i as int) && self@.slots[i as int].stage is Done),
            },
    {
        if i < self.slots.len() {
            match &self.slots[i].stage {
                Stage::Done(outcome) => Some(outcome.clone()),
                _ => None,
            }
        } else {
            None
        }
    }

    /// Reports what the filesystem shows at the destination of descriptor
    /// `i` and returns what is to be done next. Nothing happens, and `None`
    /// is returned, unless the descriptor is pending.
    pub fn local_checked(&mut self, i: usize, local: LocalFile) -> (reply: Option<Plan>)
        requires
            old(self).wf(),
        ensures
            final(self).wf(),
            match reply {
                Some(plan) => {
                    &&& old(self)@.accepts_local_check(i as int)
                    &&& plan == old(self)@.local_plan(i as int, local)
                    &&& final(self)@ == old(self)@.after_local_check(i as int, local)
                },
                None => !old(self)@.accepts_local_check(i as int) && final(self)@ == old(self)@,
            },
    {
        if i >= self.slots.len() {
            return None;
        }
        let pending = match self.slots[i].stage {
            Stage::Pending => true,
            _ => false,
        };
        if !pending {
            return None;
        }
        let ghost before = self@;
        let chosen = plan(
            quick_check(&self.files[i], local),
            self.files[i].checksum.is_some(),
            self.deep_check,
            self.skip_download,
        );
        let stage = match chosen {
            Plan::Skip => Stage::Done(TransferOutcome::Fresh),
            Plan::DeepVerify => Stage::Verifying,
            Plan::Report => Stage::Done(TransferOutcome::Required),
            Plan::Transfer => Stage::Queued,
        };
        let slot = &mut self.slots[i];
        slot.stage = stage;
        proof {
            assert(self@.slots =~= before.after_local_check(i as int, local).slots);
            lemma_local_check_valid(before, i as int, local);
        }
        Some(chosen)
    }

    /// Reports the digest text found by the deep check of descriptor `i`;
    /// where the descriptor names no checksum the text is not looked at and
    /// the descriptor is confirmed. Nothing happens, and
    /// `None` is returned, unless the content of the descriptor is being
    /// hashed.
    pub fn deep_verdict(&mut self, i: usize, actual: Option<&String>) -> (reply: Option<DeepReply>)
        requires
            old(self).wf(),
        ensures
            final(self).wf(),
            match reply {
                Some(reply) => {
                    &&& old(self)@.accepts_deep_verdict(i as int)
                    &&& final(self)@ == old(self)@.after_deep_verdict(i as int, text_view(actual))
                    &&& reply == (if deep_confirms(
                        old(self)@.files[i as int].checksum,
                        text_view(actual),
                    ) {
                        DeepReply::Confirmed(final(self)@.progress)
                    } else {
                        DeepReply::Rejected
                    })
                },
                None => !old(self)@.accepts_deep_verdict(i as int) && final(self)@ == old(self)@,
            },
    {
        if i >= self.slots.len() {
            return None;
        }
        let verifying = match self.slots[i].stage {
            Stage::Verifying => true,
            _ => false,
        };
        if !verifying {
            return None;
        }
        let ghost before = self@;
        let confirmed = match (&self.files[i].checksum, actual) {
            (Some(checksum), Some(actual)) => checksum.matches_hex(actual),
            (Some(_), None) => false,
            (None, _) => true,
        };
        let declared = self.files[i].declared_size();
        let slot = &mut self.slots[i];
        if confirmed {
            slot.stage = Stage::Done(TransferOutcome::Fresh);
            slot.completed = declared;
            slot.counted = true;
            self.counters.add_bytes_completed(declared);
            self.counters.add_file_completed();
        } else {
            slot.stage = Stage::Queued;
        }
        proof {
            assert(self@.slots =~= before.after_deep_verdict(i as int, text_view(actual)).slots);
            lemma_deep_verdict_valid(before, i as int, text_view(actual));
        }
        if confirmed {
            Some(DeepReply::Confirmed(self.counters.snapshot()))
        } else {
            Some(DeepReply::Rejected)
        }
    }

    /// Hashes the content found at the destination of descriptor `i` and
    /// reports the digest.
    pub fn deep_verified(&mut self, i: usize, content: &[u8]) -> (reply: Option<DeepReply>)
        requires
            old(self).wf(),
        ensures
            final(self).wf(),
            match reply {
                Some(reply) => {
                    &&& old(self)@.accepts_deep_verdict(i as int)
                    &&& final(self)@ == old(self)@.after_deep_verdict(
                        i as int,
                        digest_for(old(self)@.files[i as int].checksum, content@),
                    )
                    &&& reply == (if deep_confirms(
                        old(self)@.files[i as int].checksum,
                        digest_for(old(self)@.files[i as int].checksum, content@),
                    ) {
                        DeepReply::Confirmed(final(self)@.progress)
                    } else {
                        DeepReply::Rejected
                    })
                },
                None => !old(self)@.accepts_deep_verdict(i as int) && final(self)@ == old(self)@,
            },
    {
        if i >= self.files.len() {
            return None;
        }
        let actual = match &self.files[i].checksum {
            Some(checksum) => Some(digest_hex(checksum.algorithm(), content)),
            None => None,
        };
        self.deep_verdict(i, actual.as_ref())
    }

    /// Asks for a permit for descriptor `i`. The descriptor is admitted when
    /// it is queued and fewer transfers hold a permit than there are permits.
    pub fn try_admit(&mut self, i: usize) -> (admitted: bool)
        requires
            old(self).wf(),
        ensures
            final(self).wf(),
            admitted == old(self)@.accepts_admission(i as int),
            final(self)@ == (if admitted {
                old(self)@.after_admission(i as int)
            } else {
                old(self)@
            }),
    {
        if i >= self.slots.len() {
            return false;
        }
        let queued = match self.slots[i].stage {
            Stage::Queued => true,
            _ => false,
        };
        if !queued {
            return false;
        }
        let ghost before = self@;
        if !self.gate.try_acquire() {
            return false;
        }
        let digest = match &self.files[i].checksum {
            Some(checksum) => Some(StreamingDigest::new(checksum.algorithm())),
            None => None,
        };
        let slot = &mut self.slots[i];
        slot.stage = Stage::Transferring(digest, Ghost(Seq::empty()));
        proof {
            assert(self@.slots =~= before.after_admission(i as int).slots);
            lemma_admission_valid(before, i as int);
        }
        true
    }

    /// Reports the status of the response for descriptor `i`. A status
    /// outside 200..=299 ends the transfer with that error. Nothing happens,
    /// and `None` is returned, unless the descriptor holds a permit.
    pub fn response_received(&mut self, i: usize, status: u16) -> (reply: Option<
        Result<(), DownloadError>,
    >)
        requires
            old(self).wf(),
        ensures
            final(self).wf(),
            match reply {
                Some(result) => {
                    &&& old(self)@.is_transferring(i as int)
                    &&& check_view(result) == status_verdict(old(self)@.files[i as int], status)
                    &&& final(self)@ == old(self)@.after_response(i as int, status)
                },
                None => !old(self)@.is_transferring(i as int) && final(self)@ == old(self)@,
            },
    {
        if i >= self.slots.len() {
            return None;
        }
        let streaming = match self.slots[i].stage {
            Stage::Transferring(_, _) => true,
            _ => false,
        };
        if !streaming {
            return None;
        }
        match check_status(&self.files[i], status) {
            Ok(()) => Some(Ok(())),
            Err(error) => {
                let _ = self.fail(i, error.clone());
                Some(Err(error))
            },
        }
    }

    /// Reports a chunk that descriptor `i` received and wrote, and returns
    /// the snapshot to publish. Nothing happens, and `None` is returned,
    /// unless the descriptor holds a permit and its byte count stays within
    /// `u64`.
    pub fn chunk_received(&mut self, i: usize, data: &[u8]) -> (reply: Option<Progress>)
        requires
            old(self).wf(),
        ensures
            final(self).wf(),
            match reply {
                Some(progress) => {
                    &&& old(self)@.accepts_chunk(i as int, data@)
                    &&& final(self)@ == old(self)@.after_chunk(i as int, data@)
                    &&& progress == final(self)@.progress
                },
                None => !old(self)@.accepts_chunk(i as int, data@) && final(self)@ == old(self)@,
            },
    {
        if i >= self.slots.len() {
            return None;
        }
        let streaming = match self.slots[i].stage {
            Stage::Transferring(_, _) => true,
            _ => false,
        };
        if !streaming {
            return None;
        }
        let length = data.len() as u64;
        let written = match self.slots[i].completed.checked_add(length) {
            Some(written) => written,
            None => {
                return None;
            },
        };
        let ghost before = self@;
        let slot = &mut self.slots[i];
        match &mut slot.stage {
            Stage::Transferring(digest, received) => {
                match digest {
                    Some(digest) => {
                        digest.update(data);
                    },
                    None => {},
                }
                proof {
                    *received = Ghost(received@ + data@);
                }
            },
            _ => {},
        }
        slot.completed = written;
        let mut growth: u64 = 0;
        if written > slot.credited {
            growth = written - slot.credited;
            slot.credited = written;
        }
        self.counters.add_bytes_completed(length);
        self.counters.add_bytes_total(growth);
        proof {
            assert(self@.slots =~= before.after_chunk(i as int, data@).slots);
            lemma_chunk_valid(before, i as int, data@);
        }
        Some(self.counters.snapshot())
    }

    /// Reports that the stream of descriptor `i` ended. The descriptor is
    /// counted as completed and gives its permit back; what was written is
    /// then held against the declared checksum and size. Returns the
    /// snapshot to publish and the verdict. Nothing happens, and `None` is
    /// returned, unless the descriptor holds a permit.
    pub fn stream_finished(&mut self, i: usize) -> (reply: Option<
        (Progress, Result<(), DownloadError>),
    >)
        requires
            old(self).wf(),
        ensures
            final(self).wf(),
            match reply {
                Some((progress, result)) => {
                    &&& old(self)@.is_transferring(i as int)
                    &&& final(self)@ == old(self)@.after_finish(
                        i as int,
                        old(self)@.received_digest(i as int),
                    )
                    &&& progress == final(self)@.progress
                    &&& check_view(result) == transfer_verdict(
                        old(self)@.files[i as int],
                        old(self)@.slots[i as int].completed,
                        old(self)@.received_digest(i as int),
                    )
                },
                None => !old(self)@.is_transferring(i as int) && final(self)@ == old(self)@,
            },
    {
        if i >= self.slots.len() {
            return None;
        }
        let streaming = match self.slots[i].stage {
            Stage::Transferring(_, _) => true,
            _ => false,
        };
        if !streaming {
            return None;
        }
        let ghost before = self@;
        let slot = &mut self.slots[i];
        let digest = match &mut slot.stage {
            Stage::Transferring(digest, _) => digest.take(),
            _ => None,
        };
        let actual = match digest {
            Some(digest) => Some(digest.finalize()),
            None => None,
        };
        let found = actual.as_ref();
        let result = verify_transfer(&self.files[i], slot.completed, found);
        let outcome = match &result {
            Ok(()) => TransferOutcome::Downloaded,
            Err(error) => TransferOutcome::Failed(error.clone()),
        };
        slot.stage = Stage::Done(outcome);
        slot.counted = true;
        self.counters.add_file_completed();
        let _ = self.gate.release();
        proof {
            let expected = before.received_digest(i as int);
            lemma_total_update(before.slots, i as int, before.slots[i as int], transferring());
            assert(self@.slots =~= before.after_finish(i as int, expected).slots);
            lemma_finish_valid(before, i as int, expected);
        }
        Some((self.counters.snapshot(), result))
    }

    /// Gives up the work on descriptor `i` with `error`, and returns the
    /// snapshot to publish. A transfer that held a permit gives it back, and
    /// what it had put into the bytes done is taken out again. Nothing
    /// happens, and `None` is returned, where the work has already ended.
    pub fn fail(&mut self, i: usize, error: DownloadError) -> (reply: Option<Progress>)
        requires
            old(self).wf(),
        ensures
            final(self).wf(),
            match reply {
                Some(progress) => {
                    &&& old(self)@.accepts_failure(i as int)
                    &&& final(self)@ == old(self)@.after_failure(i as int, error@)
                    &&& progress == final(self)@.progress
                },
                None => !old(self)@.accepts_failure(i as int) && final(self)@ == old(self)@,
            },
    {
        if i >= self.slots.len() {
            return None;
        }
        let (ended, streaming) = match self.slots[i].stage {
            Stage::Done(_) => (true, false),
            Stage::Transferring(_, _) => (false, true),
            _ => (false, false),
        };
        if ended {
            return None;
        }
        let ghost before = self@;
        let slot = &mut self.slots[i];
        slot.stage = Stage::Done(TransferOutcome::Failed(error));
        if streaming {
            let partial = slot.completed;
            slot.completed = 0;
            self.counters.sub_bytes_completed(partial);
            let _ = self.gate.release();
        }
        proof {
            lemma_total_update(before.slots, i as int, before.slots[i as int], transferring());
            assert(self@.slots =~= before.after_failure(i as int, error@).slots);
            lemma_failure_valid(before, i as int, error@);
        }
        Some(self.counters.snapshot())
    }

    /// The result of the batch as far as it is decided: see
    /// [`BatchView::joins_to`].
    pub fn verdict(&self) -> (result: Option<Result<bool, DownloadError>>)
        requires
            self.wf(),
        ensures
            self@.joins_to(join_view(result)),
    {
        let mut required = false;
        let mut i: usize = 0;
        while i < self.slots.len()
            invariant
                i <= self.slots.len(),
                self@.settled_before(i as int),
                required == (exists|j: int|
                    0 <= j < i && (#[trigger] self@.slots[j]).stage is Done
                        && self@.slots[j].stage->outcome.requires_download()),
            decreases self.slots.len() - i,
        {
            assert(self@.slots[i as int] == self.slots[i as int]@);
            match &self.slots[i].stage {
                Stage::Done(TransferOutcome::Failed(error)) => {
                    return Some(Err(error.clone()));
                },
                Stage::Done(outcome) => {
                    if outcome.requires_download() {
                        required = true;
                    }
                },
                _ => {
                    return None;
                },
            }
            i = i + 1;
        }
        Some(Ok(required))
    }
}

/// View of the result of a join.
pub open spec fn join_view(result: Option<Result<bool, DownloadError>>) -> Option<
    Result<bool, DownloadErrorView>,
> {
    match result {
        Some(result) => Some(result_view(result)),
        None => None,
    }
}

} // verus!
