//! The batch as a mathematical state machine: its states, its invariant and
//! its transitions. The executable batch is specified against these.

use crate::descriptor::DownloadableView;
use crate::error::DownloadErrorView;
use crate::freshness::{deep_confirms, digest_for, looks_fresh, plan_for, LocalFile, Plan};
use crate::progress::Progress;
use crate::transfer::{status_verdict, transfer_verdict, TransferOutcomeView};
use vstd::prelude::*;
use vstd::wrapping::u64_specs::{wrapping_add, wrapping_sub};

verus! {

/// Where the work on one descriptor stands.
pub enum StageView {
    /// The destination has not been looked at yet.
    Pending,
    /// The destination looks fresh and its content is being hashed.
    Verifying,
    /// A download is needed and waits for a permit.
    Queued,
    /// The transfer holds a permit; `received` is the payload so far.
    Transferring { received: Seq<u8> },
    /// The work has ended.
    Done { outcome: TransferOutcomeView },
}

/// The accounting of one descriptor.
pub struct SlotView {
    pub stage: StageView,
    /// What this descriptor has put into the expected total.
    pub credited: u64,
    /// What this descriptor has put into the bytes done.
    pub completed: u64,
    /// Whether this descriptor has been counted as a completed file.
    pub counted: bool,
}

/// A whole batch.
pub struct BatchView {
    pub files: Seq<DownloadableView>,
    pub slots: Seq<SlotView>,
    pub progress: Progress,
    pub limit: nat,
    pub in_flight: nat,
    pub deep_check: bool,
    pub skip_download: bool,
}

/// Sum of `weight` over all slots.
pub open spec fn total(slots: Seq<SlotView>, weight: spec_fn(SlotView) -> nat) -> nat
    decreases slots.len(),
{
    if slots.len() == 0 {
        0
    } else {
        total(slots.drop_last(), weight) + weight(slots.last())
    }
}

/// Weight of a slot in the expected total.
pub open spec fn credited() -> spec_fn(SlotView) -> nat {
    |slot: SlotView| slot.credited as nat
}

/// Weight of a slot in the bytes done.
pub open spec fn completed() -> spec_fn(SlotView) -> nat {
    |slot: SlotView| slot.completed as nat
}

/// One for a slot counted as a completed file, zero for any other.
pub open spec fn counted() -> spec_fn(SlotView) -> nat {
    |slot: SlotView|
        if slot.counted {
            1nat
        } else {
            0nat
        }
}

/// One for a slot that holds a permit, zero for any other.
pub open spec fn transferring() -> spec_fn(SlotView) -> nat {
    |slot: SlotView|
        if slot.stage is Transferring {
            1nat
        } else {
            0nat
        }
}

/// The larger of two sizes.
pub open spec fn larger(a: u64, b: u64) -> u64 {
    if a >= b {
        a
    } else {
        b
    }
}

/// What holds of the accounting of one descriptor at every moment.
pub open spec fn slot_valid(file: DownloadableView, slot: SlotView) -> bool {
    &&& file.declared_size() <= slot.credited
    &&& slot.completed <= slot.credited
    &&& match slot.stage {
        StageView::Pending | StageView::Verifying | StageView::Queued => {
            &&& slot.completed == 0
            &&& !slot.counted
            &&& slot.credited == file.declared_size()
        },
        StageView::Transferring { received } => {
            &&& !slot.counted
            &&& received.len() == slot.completed
            &&& slot.credited == larger(file.declared_size(), slot.completed)
        },
        StageView::Done { outcome } => outcome is Downloaded ==> {
            &&& slot.counted
            &&& slot.credited == larger(file.declared_size(), slot.completed)
        },
    }
}

/// The slot of a descriptor on which no work has been done.
pub open spec fn fresh_slot(file: DownloadableView) -> SlotView {
    SlotView {
        stage: StageView::Pending,
        credited: file.declared_size(),
        completed: 0,
        counted: false,
    }
}

/// The slots of descriptors on which no work has been done.
pub open spec fn fresh_slots(files: Seq<DownloadableView>) -> Seq<SlotView> {
    files.map_values(|file: DownloadableView| fresh_slot(file))
}

/// Sum of the declared sizes, wrapping around at `u64::MAX`.
pub open spec fn seed_total(files: Seq<DownloadableView>) -> u64
    decreases files.len(),
{
    if files.len() == 0 {
        0
    } else {
        wrapping_add(seed_total(files.drop_last()), files.last().declared_size())
    }
}

/// Replacing one slot changes a sum by the difference of the two weights.
pub proof fn lemma_total_update(
    slots: Seq<SlotView>,
    i: int,
    slot: SlotView,
    weight: spec_fn(SlotView) -> nat,
)
    requires
        0 <= i < slots.len(),
    ensures
        total(slots.update(i, slot), weight) == total(slots, weight) - weight(slots[i]) + weight(
            slot,
        ),
        weight(slots[i]) <= total(slots, weight),
    decreases slots.len(),
{
    let updated = slots.update(i, slot);
    if i == slots.len() - 1 {
        assert(updated.drop_last() =~= slots.drop_last());
    } else {
        assert(updated.drop_last() =~= slots.drop_last().update(i, slot));
        lemma_total_update(slots.drop_last(), i, slot, weight);
    }
}

/// A sum of weights that are at most one is at most the number of slots.
pub proof fn lemma_total_bound(slots: Seq<SlotView>, weight: spec_fn(SlotView) -> nat)
    requires
        forall|slot: SlotView| #[trigger] weight(slot) <= 1,
    ensures
        total(slots, weight) <= slots.len(),
    decreases slots.len(),
{
    if slots.len() > 0 {
        lemma_total_bound(slots.drop_last(), weight);
    }
}

/// Where every slot puts in no more than `heavy` gives it, the sums compare
/// the same way.
pub proof fn lemma_total_le(
    slots: Seq<SlotView>,
    light: spec_fn(SlotView) -> nat,
    heavy: spec_fn(SlotView) -> nat,
)
    requires
        forall|i: int| 0 <= i < slots.len() ==> light(#[trigger] slots[i]) <= heavy(slots[i]),
    ensures
        total(slots, light) <= total(slots, heavy),
    decreases slots.len(),
{
    if slots.len() > 0 {
        let rest = slots.drop_last();
        assert forall|i: int| 0 <= i < rest.len() implies light(#[trigger] rest[i]) <= heavy(
            rest[i],
        ) by {
        }
        lemma_total_le(rest, light, heavy);
    }
}

impl BatchView {
    /// What holds of a batch at every moment.
    pub open spec fn valid(self) -> bool {
        &&& self.slots.len() == self.files.len()
        &&& self.files.len() <= u64::MAX
        &&& self.progress.total_count == self.files.len()
        &&& self.progress.current_count == total(self.slots, counted())
        &&& self.in_flight == total(self.slots, transferring())
        &&& self.in_flight <= self.limit
        &&& total(self.slots, credited()) <= u64::MAX ==> {
            &&& self.progress.total_size == total(self.slots, credited())
            &&& self.progress.current_size == total(self.slots, completed())
        }
        &&& forall|i: int|
            0 <= i < self.slots.len() ==> slot_valid(self.files[i], #[trigger] self.slots[i])
    }

    /// Whether `i` is the position of a descriptor.
    pub open spec fn has(self, i: int) -> bool {
        0 <= i < self.slots.len()
    }

    /// This batch with the slot at `i` replaced.
    pub open spec fn with_slot(self, i: int, slot: SlotView) -> BatchView {
        BatchView { slots: self.slots.update(i, slot), ..self }
    }

    /// The batch before any work: every descriptor pending, the expected
    /// total seeded with the declared sizes.
    pub open spec fn start(
        files: Seq<DownloadableView>,
        limit: nat,
        deep_check: bool,
        skip_download: bool,
    ) -> BatchView {
        BatchView {
            files,
            slots: fresh_slots(files),
            progress: Progress {
                total_count: files.len() as u64,
                current_count: 0,
                total_size: seed_total(files),
                current_size: 0,
            },
            limit,
            in_flight: 0,
            deep_check,
            skip_download,
        }
    }

    /// A quick check is accepted for a pending descriptor.
    pub open spec fn accepts_local_check(self, i: int) -> bool {
        self.has(i) && self.slots[i].stage is Pending
    }

    /// The plan for descriptor `i`, given what the filesystem shows.
    pub open spec fn local_plan(self, i: int, local: LocalFile) -> Plan {
        plan_for(
            looks_fresh(self.files[i].size, local),
            self.files[i].checksum is Some,
            self.deep_check,
            self.skip_download,
        )
    }

    /// The batch after the quick check of descriptor `i`.
    pub open spec fn after_local_check(self, i: int, local: LocalFile) -> BatchView {
        let stage = match self.local_plan(i, local) {
            Plan::Skip => StageView::Done { outcome: TransferOutcomeView::Fresh },
            Plan::DeepVerify => StageView::Verifying,
            Plan::Report => StageView::Done { outcome: TransferOutcomeView::Required },
            Plan::Transfer => StageView::Queued,
        };
        self.with_slot(i, SlotView { stage, ..self.slots[i] })
    }

    /// The digest of a deep check is accepted for a descriptor whose content
    /// is being hashed.
    pub open spec fn accepts_deep_verdict(self, i: int) -> bool {
        self.has(i) && self.slots[i].stage is Verifying
    }

    /// The batch after the deep check of descriptor `i` found the digest text
    /// `actual`. A confirmed descriptor puts its declared size into the bytes
    /// done and is counted as completed; any other is queued for download.
    pub open spec fn after_deep_verdict(self, i: int, actual: Option<Seq<char>>) -> BatchView {
        let slot = self.slots[i];
        if deep_confirms(self.files[i].checksum, actual) {
            BatchView {
                slots: self.slots.update(
                    i,
                    SlotView {
                        stage: StageView::Done { outcome: TransferOutcomeView::Fresh },
                        completed: self.files[i].declared_size(),
                        counted: true,
                        ..slot
                    },
                ),
                progress: Progress {
                    current_size: wrapping_add(
                        self.progress.current_size,
                        self.files[i].declared_size(),
                    ),
                    current_count: wrapping_add(self.progress.current_count, 1),
                    ..self.progress
                },
                ..self
            }
        } else {
            self.with_slot(i, SlotView { stage: StageView::Queued, ..slot })
        }
    }

    /// A queued descriptor is admitted while a permit is free.
    pub open spec fn accepts_admission(self, i: int) -> bool {
        self.has(i) && self.slots[i].stage is Queued && self.in_flight < self.limit
    }

    /// The batch after descriptor `i` took a permit.
    pub open spec fn after_admission(self, i: int) -> BatchView {
        BatchView {
            slots: self.slots.update(
                i,
                SlotView {
                    stage: StageView::Transferring { received: Seq::empty() },
                    ..self.slots[i]
                },
            ),
            in_flight: self.in_flight + 1,
            ..self
        }
    }

    /// Whether descriptor `i` holds a permit.
    pub open spec fn is_transferring(self, i: int) -> bool {
        self.has(i) && self.slots[i].stage is Transferring
    }

    /// A chunk is accepted for a descriptor that holds a permit, as long as
    /// its byte count stays within `u64`.
    pub open spec fn accepts_chunk(self, i: int, data: Seq<u8>) -> bool {
        self.is_transferring(i) && self.slots[i].completed + data.len() <= u64::MAX
    }

    /// The batch after descriptor `i` received and wrote `data`: the bytes
    /// done grow by its length, and the expected total grows by whatever the
    /// descriptor has now written beyond what it had put in before.
    pub open spec fn after_chunk(self, i: int, data: Seq<u8>) -> BatchView {
        let slot = self.slots[i];
        let written = (slot.completed + data.len()) as u64;
        let credit = larger(slot.credited, written);
        BatchView {
            slots: self.slots.update(
                i,
                SlotView {
                    stage: StageView::Transferring { received: slot.stage->received + data },
                    completed: written,
                    credited: credit,
                    ..slot
                },
            ),
            progress: Progress {
                current_size: wrapping_add(self.progress.current_size, data.len() as u64),
                total_size: wrapping_add(
                    self.progress.total_size,
                    (credit - slot.credited) as u64,
                ),
                ..self.progress
            },
            ..self
        }
    }

    /// The batch after the stream of descriptor `i` ended and the digest text
    /// of what was written is `actual`: the descriptor is counted as
    /// completed, gives its permit back, and is then held against its
    /// declared checksum and size.
    pub open spec fn after_finish(self, i: int, actual: Option<Seq<char>>) -> BatchView {
        let slot = self.slots[i];
        let outcome = match transfer_verdict(self.files[i], slot.completed, actual) {
            Ok(_) => TransferOutcomeView::Downloaded,
            Err(error) => TransferOutcomeView::Failed(error),
        };
        BatchView {
            slots: self.slots.update(
                i,
                SlotView { stage: StageView::Done { outcome }, counted: true, ..slot },
            ),
            progress: Progress {
                current_count: wrapping_add(self.progress.current_count, 1),
                ..self.progress
            },
            in_flight: (self.in_flight - 1) as nat,
            ..self
        }
    }

    /// The digest text of what descriptor `i` has received, under the
    /// algorithm its checksum names.
    pub open spec fn received_digest(self, i: int) -> Option<Seq<char>> {
        digest_for(self.files[i].checksum, self.slots[i].stage->received)
    }

    /// A failure is accepted for every descriptor whose work has not ended.
    pub open spec fn accepts_failure(self, i: int) -> bool {
        self.has(i) && !(self.slots[i].stage is Done)
    }

    /// The batch after the work on descriptor `i` was given up with `error`.
    /// A transfer that held a permit gives it back, and what it had put into
    /// the bytes done is taken out again.
    pub open spec fn after_failure(self, i: int, error: DownloadErrorView) -> BatchView {
        let slot = self.slots[i];
        let stage = StageView::Done { outcome: TransferOutcomeView::Failed(error) };
        if slot.stage is Transferring {
            BatchView {
                slots: self.slots.update(i, SlotView { stage, completed: 0, ..slot }),
                progress: Progress {
                    current_size: wrapping_sub(self.progress.current_size, slot.completed),
                    ..self.progress
                },
                in_flight: (self.in_flight - 1) as nat,
                ..self
            }
        } else {
            self.with_slot(i, SlotView { stage, ..slot })
        }
    }

    /// The batch after descriptor `i` got a response with `status`: a status
    /// outside 200..=299 fails the transfer, any other changes nothing.
    pub open spec fn after_response(self, i: int, status: u16) -> BatchView {
        match status_verdict(self.files[i], status) {
            Ok(_) => self,
            Err(error) => self.after_failure(i, error),
        }
    }

    /// Whether the work on every descriptor before position `end` has ended
    /// without a failure.
    pub open spec fn settled_before(self, end: int) -> bool {
        forall|j: int|
            0 <= j < end && j < self.slots.len() ==> {
                &&& (#[trigger] self.slots[j]).stage is Done
                &&& !(self.slots[j].stage->outcome is Failed)
            }
    }

    /// Whether some descriptor ended with a download made or needed.
    pub open spec fn any_requires_download(self) -> bool {
        exists|j: int|
            0 <= j < self.slots.len() && (#[trigger] self.slots[j]).stage is Done
                && self.slots[j].stage->outcome.requires_download()
    }

    /// The result of joining the descriptors in order: the failure of the
    /// first descriptor that failed, once all before it have ended; nothing
    /// while a descriptor before the first failure is still at work; and
    /// otherwise whether any descriptor needed a download.
    pub open spec fn joins_to(self, result: Option<Result<bool, DownloadErrorView>>) -> bool {
        match result {
            Some(Err(error)) => exists|k: int|
                self.has(k) && (#[trigger] self.slots[k]).stage == (StageView::Done {
                    outcome: TransferOutcomeView::Failed(error),
                }) && self.settled_before(k),
            Some(Ok(required)) => self.settled_before(self.slots.len() as int) && required
                == self.any_requires_download(),
            None => exists|k: int|
                self.has(k) && !((#[trigger] self.slots[k]).stage is Done) && self.settled_before(
                    k,
                ),
        }
    }
}

/// What the caller can report to a batch.
#[allow(inconsistent_fields)]
pub enum Event {
    /// The destination of descriptor `i` was looked at.
    LocalCheck { i: int, local: LocalFile },
    /// The deep check of descriptor `i` found the digest text `actual`.
    DeepVerdict { i: int, actual: Option<Seq<char>> },
    /// Descriptor `i` asks for a permit.
    Admission { i: int },
    /// The response for descriptor `i` came with `status`.
    Response { i: int, status: u16 },
    /// Descriptor `i` received and wrote `data`.
    Chunk { i: int, data: Seq<u8> },
    /// The stream of descriptor `i` ended.
    Finish { i: int },
    /// The work on descriptor `i` was given up.
    Failure { i: int, error: DownloadErrorView },
}

impl BatchView {
    /// Whether the batch takes `event`; one that it does not take leaves it
    /// as it is.
    pub open spec fn accepts(self, event: Event) -> bool {
        match event {
            Event::LocalCheck { i, .. } => self.accepts_local_check(i),
            Event::DeepVerdict { i, .. } => self.accepts_deep_verdict(i),
            Event::Admission { i } => self.accepts_admission(i),
            Event::Response { i, .. } => self.is_transferring(i),
            Event::Chunk { i, data } => self.accepts_chunk(i, data),
            Event::Finish { i } => self.is_transferring(i),
            Event::Failure { i, .. } => self.accepts_failure(i),
        }
    }

    /// The batch after `event`.
    pub open spec fn after(self, event: Event) -> BatchView {
        if !self.accepts(event) {
            self
        } else {
            match event {
                Event::LocalCheck { i, local } => self.after_local_check(i, local),
                Event::DeepVerdict { i, actual } => self.after_deep_verdict(i, actual),
                Event::Admission { i } => self.after_admission(i),
                Event::Response { i, status } => self.after_response(i, status),
                Event::Chunk { i, data } => self.after_chunk(i, data),
                Event::Finish { i } => self.after_finish(i, self.received_digest(i)),
                Event::Failure { i, error } => self.after_failure(i, error),
            }
        }
    }

    /// The batch after descriptor `i` received and wrote `chunks`, one after
    /// the other.
    pub open spec fn after_chunks(self, i: int, chunks: Seq<Seq<u8>>) -> BatchView
        decreases chunks.len(),
    {
        if chunks.len() == 0 {
            self
        } else {
            self.after_chunks(i, chunks.drop_last()).after(
                Event::Chunk { i, data: chunks.last() },
            )
        }
    }
}

/// What is found at a destination: what the filesystem shows, and the
/// content of the file.
pub struct Found {
    pub local: LocalFile,
    pub content: Seq<u8>,
}

impl BatchView {
    /// The batch after the first `n` descriptors were held against what was
    /// found at their destinations: the quick check, and the deep check
    /// where the quick check asks for it.
    pub open spec fn after_checks(self, found: Seq<Found>, n: nat) -> BatchView
        decreases n,
    {
        if n == 0 {
            self
        } else {
            let i = n - 1;
            self.after_checks(found, (n - 1) as nat).after(
                Event::LocalCheck { i, local: found[i].local },
            ).after(
                Event::DeepVerdict {
                    i,
                    actual: digest_for(self.files[i].checksum, found[i].content),
                },
            )
        }
    }
}

/// The number of bytes in a list of chunks.
pub open spec fn payload_len(chunks: Seq<Seq<u8>>) -> nat
    decreases chunks.len(),
{
    if chunks.len() == 0 {
        0
    } else {
        payload_len(chunks.drop_last()) + chunks.last().len()
    }
}

} // verus!
