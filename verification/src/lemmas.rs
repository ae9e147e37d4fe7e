//! What holds of every batch: each transition keeps the invariant, and the
//! invariant bounds the transfers in flight and the counters.

use crate::descriptor::DownloadableView;
use crate::error::DownloadErrorView;
use crate::freshness::{deep_confirms, digest_for, looks_fresh, LocalFile};
use crate::model::{
    completed, counted, credited, fresh_slots, lemma_total_bound, lemma_total_le,
    lemma_total_update, payload_len, seed_total, slot_valid, total, transferring, BatchView,
    Event, Found, StageView,
};
use crate::transfer::{any_requires_download, batch_result, transfer_verdict, TransferOutcomeView};
use vstd::prelude::*;
use vstd::wrapping::u64_specs::wrapping_add;

verus! {

/// In a valid batch no slot has put more into the bytes done than into the
/// expected total, so the sums compare the same way.
pub proof fn lemma_completed_within_credited(batch: BatchView)
    requires
        batch.valid(),
    ensures
        total(batch.slots, completed()) <= total(batch.slots, credited()),
{
    assert forall|i: int| 0 <= i < batch.slots.len() implies completed()(
        #[trigger] batch.slots[i],
    ) <= credited()(batch.slots[i]) by {
    }
    lemma_total_le(batch.slots, completed(), credited());
}

/// The sums over the slots of descriptors on which no work has been done.
pub proof fn lemma_fresh_totals(files: Seq<DownloadableView>)
    ensures
        total(fresh_slots(files), completed()) == 0,
        total(fresh_slots(files), counted()) == 0,
        total(fresh_slots(files), transferring()) == 0,
        total(fresh_slots(files), credited()) <= u64::MAX ==> seed_total(files) == total(
            fresh_slots(files),
            credited(),
        ),
    decreases files.len(),
{
    let slots = fresh_slots(files);
    if files.len() > 0 {
        let rest = files.drop_last();
        lemma_fresh_totals(rest);
        assert(slots.drop_last() =~= fresh_slots(rest));
    }
}

/// A batch starts valid.
pub proof fn lemma_start_valid(
    files: Seq<DownloadableView>,
    limit: nat,
    deep_check: bool,
    skip_download: bool,
)
    requires
        files.len() <= u64::MAX,
    ensures
        BatchView::start(files, limit, deep_check, skip_download).valid(),
{
    lemma_fresh_totals(files);
}

/// What follows where one slot of a valid batch is replaced by a slot that
/// is valid for its descriptor: each sum changes by the difference of the
/// two weights, every slot is valid, and the bytes done stay within the
/// expected total, slot by slot and in sum.
proof fn lemma_slot_changed(batch: BatchView, after: BatchView, i: int)
    requires
        batch.valid(),
        batch.has(i),
        after.files == batch.files,
        after.slots == batch.slots.update(i, after.slots[i]),
        slot_valid(batch.files[i], after.slots[i]),
    ensures
        total(after.slots, credited()) == total(batch.slots, credited())
            - batch.slots[i].credited + after.slots[i].credited,
        total(after.slots, completed()) == total(batch.slots, completed())
            - batch.slots[i].completed + after.slots[i].completed,
        total(after.slots, counted()) == total(batch.slots, counted()) - counted()(
            batch.slots[i],
        ) + counted()(after.slots[i]),
        total(after.slots, transferring()) == total(batch.slots, transferring())
            - transferring()(batch.slots[i]) + transferring()(after.slots[i]),
        batch.slots[i].completed <= total(batch.slots, completed()),
        total(after.slots, completed()) <= total(after.slots, credited()),
        total(after.slots, counted()) <= after.slots.len(),
        slot_valid(batch.files[i], batch.slots[i]),
        forall|j: int|
            0 <= j < after.slots.len() ==> slot_valid(after.files[j], #[trigger] after.slots[j]),
{
    lemma_total_update(batch.slots, i, after.slots[i], credited());
    lemma_total_update(batch.slots, i, after.slots[i], completed());
    lemma_total_update(batch.slots, i, after.slots[i], counted());
    lemma_total_update(batch.slots, i, after.slots[i], transferring());
    lemma_total_bound(after.slots, counted());
    assert forall|j: int| 0 <= j < after.slots.len() implies slot_valid(
        after.files[j],
        #[trigger] after.slots[j],
    ) by {
    }
    assert forall|j: int| 0 <= j < after.slots.len() implies completed()(
        #[trigger] after.slots[j],
    ) <= credited()(after.slots[j]) by {
    }
    lemma_total_le(after.slots, completed(), credited());
}

/// The quick check of a pending descriptor keeps the batch valid.
pub proof fn lemma_local_check_valid(batch: BatchView, i: int, local: LocalFile)
    requires
        batch.valid(),
        batch.accepts_local_check(i),
    ensures
        batch.after_local_check(i, local).valid(),
{
    lemma_slot_changed(batch, batch.after_local_check(i, local), i);
}

/// The verdict of a deep check keeps the batch valid.
pub proof fn lemma_deep_verdict_valid(batch: BatchView, i: int, actual: Option<Seq<char>>)
    requires
        batch.valid(),
        batch.accepts_deep_verdict(i),
    ensures
        batch.after_deep_verdict(i, actual).valid(),
{
    lemma_slot_changed(batch, batch.after_deep_verdict(i, actual), i);
}

/// An admission keeps the batch valid.
pub proof fn lemma_admission_valid(batch: BatchView, i: int)
    requires
        batch.valid(),
        batch.accepts_admission(i),
    ensures
        batch.after_admission(i).valid(),
{
    lemma_slot_changed(batch, batch.after_admission(i), i);
}

/// A chunk keeps the batch valid.
pub proof fn lemma_chunk_valid(batch: BatchView, i: int, data: Seq<u8>)
    requires
        batch.valid(),
        batch.accepts_chunk(i, data),
    ensures
        batch.after_chunk(i, data).valid(),
{
    lemma_slot_changed(batch, batch.after_chunk(i, data), i);
}

/// The end of a stream keeps the batch valid.
pub proof fn lemma_finish_valid(batch: BatchView, i: int, actual: Option<Seq<char>>)
    requires
        batch.valid(),
        batch.is_transferring(i),
    ensures
        batch.after_finish(i, actual).valid(),
{
    lemma_slot_changed(batch, batch.after_finish(i, actual), i);
}

/// A failure keeps the batch valid.
pub proof fn lemma_failure_valid(batch: BatchView, i: int, error: DownloadErrorView)
    requires
        batch.valid(),
        batch.accepts_failure(i),
    ensures
        batch.after_failure(i, error).valid(),
{
    lemma_slot_changed(batch, batch.after_failure(i, error), i);
}

/// A response keeps the batch valid.
pub proof fn lemma_response_valid(batch: BatchView, i: int, status: u16)
    requires
        batch.valid(),
        batch.is_transferring(i),
    ensures
        batch.after_response(i, status).valid(),
{
    if batch.after_response(i, status) != batch {
        let error = DownloadErrorView::Non200StatusCode(batch.files[i], status);
        lemma_failure_valid(batch, i, error);
    }
}

/// Every event leaves a valid batch valid.
pub proof fn lemma_step_valid(batch: BatchView, event: Event)
    requires
        batch.valid(),
    ensures
        batch.after(event).valid(),
{
    if batch.accepts(event) {
        match event {
            Event::LocalCheck { i, local } => lemma_local_check_valid(batch, i, local),
            Event::DeepVerdict { i, actual } => lemma_deep_verdict_valid(batch, i, actual),
            Event::Admission { i } => lemma_admission_valid(batch, i),
            Event::Response { i, status } => lemma_response_valid(batch, i, status),
            Event::Chunk { i, data } => lemma_chunk_valid(batch, i, data),
            Event::Finish { i } => lemma_finish_valid(batch, i, batch.received_digest(i)),
            Event::Failure { i, error } => lemma_failure_valid(batch, i, error),
        }
    }
}

/// Concurrency bound: in a valid batch the descriptors that hold a permit are
/// exactly those counted as in flight, and they are never more than the limit
/// the batch was made with, however many descriptors it has.
pub proof fn lemma_concurrency_bound(batch: BatchView)
    requires
        batch.valid(),
    ensures
        batch.in_flight == total(batch.slots, transferring()),
        total(batch.slots, transferring()) <= batch.limit,
{
}

/// No event changes the descriptors, the mode flags, the limit or the number
/// of files in the batch; the files completed and what the descriptors have
/// put into the expected total never go down; and what they have put into
/// the bytes done goes down only where a transfer is given up.
pub proof fn lemma_counters_monotone(batch: BatchView, event: Event)
    requires
        batch.valid(),
    ensures
        batch.after(event).files == batch.files,
        batch.after(event).limit == batch.limit,
        batch.after(event).deep_check == batch.deep_check,
        batch.after(event).skip_download == batch.skip_download,
        batch.after(event).progress.total_count == batch.progress.total_count,
        batch.after(event).progress.current_count >= batch.progress.current_count,
        total(batch.after(event).slots, credited()) >= total(batch.slots, credited()),
        !(event is Failure) && !(event is Response) ==> total(
            batch.after(event).slots,
            completed(),
        ) >= total(batch.slots, completed()),
{
    let after = batch.after(event);
    lemma_step_valid(batch, event);
    if batch.accepts(event) {
        let i = match event {
            Event::LocalCheck { i, .. } => i,
            Event::DeepVerdict { i, .. } => i,
            Event::Admission { i } => i,
            Event::Response { i, .. } => i,
            Event::Chunk { i, .. } => i,
            Event::Finish { i } => i,
            Event::Failure { i, .. } => i,
        };
        if after != batch {
            lemma_total_update(batch.slots, i, after.slots[i], credited());
            lemma_total_update(batch.slots, i, after.slots[i], counted());
            lemma_total_update(batch.slots, i, after.slots[i], completed());
        }
    }
}

/// As long as what the descriptors have put into the expected total fits in
/// `u64`, the two byte counters are exactly the sums over the descriptors,
/// and the bytes done never exceed the expected total.
pub proof fn lemma_completed_within_total(batch: BatchView)
    requires
        batch.valid(),
        total(batch.slots, credited()) <= u64::MAX,
    ensures
        batch.progress.total_size == total(batch.slots, credited()),
        batch.progress.current_size == total(batch.slots, completed()),
        batch.progress.current_size <= batch.progress.total_size,
{
    lemma_completed_within_credited(batch);
}

/// The files completed never exceed the number of files.
pub proof fn lemma_files_completed_within_total(batch: BatchView)
    requires
        batch.valid(),
    ensures
        batch.progress.current_count <= batch.progress.total_count,
{
    lemma_total_bound(batch.slots, counted());
}

/// The expected total never goes down, as long as it fits in `u64` after the
/// event.
pub proof fn lemma_expected_total_monotone(batch: BatchView, event: Event)
    requires
        batch.valid(),
        total(batch.after(event).slots, credited()) <= u64::MAX,
    ensures
        batch.after(event).progress.total_size >= batch.progress.total_size,
{
    lemma_step_valid(batch, event);
    lemma_counters_monotone(batch, event);
}

/// Freshness: a pending descriptor whose destination looks fresh ends as
/// fresh, provided that its content has the expected digest where a deep
/// check is asked for and the descriptor names a checksum. The content is
/// hashed in that case only; in every other the quick check settles it. The
/// descriptor never waits for a permit and never holds one, whether
/// downloads are skipped or not.
pub proof fn lemma_fresh_is_skipped(batch: BatchView, i: int, local: LocalFile, content: Seq<u8>)
    requires
        batch.valid(),
        batch.accepts_local_check(i),
        looks_fresh(batch.files[i].size, local),
        batch.deep_check && batch.files[i].checksum is Some ==> deep_confirms(
            batch.files[i].checksum,
            digest_for(batch.files[i].checksum, content),
        ),
    ensures
        ({
            let checked = batch.after(Event::LocalCheck { i, local });
            let ended = checked.after(
                Event::DeepVerdict { i, actual: digest_for(batch.files[i].checksum, content) },
            );
            let fresh = StageView::Done { outcome: TransferOutcomeView::Fresh };
            &&& checked.slots[i].stage == (if batch.deep_check && batch.files[i].checksum is Some {
                StageView::Verifying
            } else {
                fresh
            })
            &&& ended.slots[i].stage == fresh
            &&& ended.in_flight == batch.in_flight
        }),
{
}

/// Whether what was found at every destination satisfies its descriptor:
/// the destination looks fresh, and its content has the expected digest
/// where a deep check is asked for and the descriptor names a checksum.
pub open spec fn all_satisfied(batch: BatchView, found: Seq<Found>) -> bool {
    &&& found.len() == batch.slots.len()
    &&& forall|i: int|
        0 <= i < batch.slots.len() ==> {
            &&& looks_fresh(batch.files[i].size, (#[trigger] found[i]).local)
            &&& batch.deep_check && batch.files[i].checksum is Some ==> deep_confirms(
                batch.files[i].checksum,
                digest_for(batch.files[i].checksum, found[i].content),
            )
        }
}

/// Freshness idempotence: a batch over descriptors whose destinations all
/// satisfy them ends with every descriptor fresh and joins to `Ok(false)`.
/// No descriptor ever waits for a permit or holds one, so no request is
/// made; the counters of permits and of the expected total stay as they
/// were.
pub proof fn lemma_fresh_batch_joins_false(batch: BatchView, found: Seq<Found>)
    requires
        batch.valid(),
        forall|i: int| 0 <= i < batch.slots.len() ==> (#[trigger] batch.slots[i]).stage is Pending,
        all_satisfied(batch, found),
    ensures
        ({
            let ended = batch.after_checks(found, batch.slots.len());
            &&& ended.valid()
            &&& ended.in_flight == batch.in_flight
            &&& ended.progress.total_size == batch.progress.total_size
            &&& ended.joins_to(Some(Ok(false)))
            &&& forall|i: int|
                0 <= i < ended.slots.len() ==> (#[trigger] ended.slots[i]).stage
                    == (StageView::Done { outcome: TransferOutcomeView::Fresh })
        }),
{
    lemma_checks(batch, found, batch.slots.len());
}

proof fn lemma_checks(batch: BatchView, found: Seq<Found>, n: nat)
    requires
        batch.valid(),
        forall|i: int| 0 <= i < batch.slots.len() ==> (#[trigger] batch.slots[i]).stage is Pending,
        all_satisfied(batch, found),
        n <= batch.slots.len(),
    ensures
        ({
            let ended = batch.after_checks(found, n);
            &&& ended.valid()
            &&& ended.files == batch.files
            &&& ended.deep_check == batch.deep_check
            &&& ended.skip_download == batch.skip_download
            &&& ended.in_flight == batch.in_flight
            &&& ended.progress.total_size == batch.progress.total_size
            &&& ended.slots.len() == batch.slots.len()
            &&& forall|i: int|
                0 <= i < n ==> (#[trigger] ended.slots[i]).stage == (StageView::Done {
                    outcome: TransferOutcomeView::Fresh,
                })
            &&& forall|i: int|
                n <= i < ended.slots.len() ==> (#[trigger] ended.slots[i]).stage is Pending
        }),
    decreases n,
{
    if n > 0 {
        let i = n - 1;
        lemma_checks(batch, found, (n - 1) as nat);
        let before = batch.after_checks(found, (n - 1) as nat);
        let local = found[i].local;
        let actual = digest_for(batch.files[i].checksum, found[i].content);
        let checked = before.after(Event::LocalCheck { i, local });
        lemma_step_valid(before, Event::LocalCheck { i, local });
        lemma_step_valid(checked, Event::DeepVerdict { i, actual });
    }
}

/// A transfer that passed verification leaves a destination that the next
/// batch takes as fresh: the quick check accepts the written length, and the
/// deep check accepts the written content.
pub proof fn lemma_verified_transfer_is_fresh(file: DownloadableView, payload: Seq<u8>)
    requires
        payload.len() <= u64::MAX,
        transfer_verdict(file, payload.len() as u64, digest_for(file.checksum, payload)) is Ok,
    ensures
        looks_fresh(file.size, LocalFile::Present { len: Some(payload.len() as u64) }),
        deep_confirms(file.checksum, digest_for(file.checksum, payload)),
{
}

/// A batch in which every descriptor ended as fresh joins to `Ok(false)`.
pub proof fn lemma_all_fresh_joins_false(batch: BatchView)
    requires
        forall|i: int|
            0 <= i < batch.slots.len() ==> (#[trigger] batch.slots[i]).stage == (StageView::Done {
                outcome: TransferOutcomeView::Fresh,
            }),
    ensures
        batch.joins_to(Some(Ok(false))),
{
}

/// A batch joins to at most one result.
pub proof fn lemma_join_unique(
    batch: BatchView,
    first: Option<Result<bool, DownloadErrorView>>,
    second: Option<Result<bool, DownloadErrorView>>,
)
    requires
        batch.joins_to(first),
        batch.joins_to(second),
    ensures
        first == second,
{
}

/// Checksum correctness: where the digest of what was written is not the
/// expected text, the verdict is a checksum mismatch that carries both texts,
/// the URL and the path, whatever the size.
pub proof fn lemma_checksum_mismatch(file: DownloadableView, written: u64, actual: Seq<char>)
    requires
        file.checksum is Some,
        file.checksum->0.expected != actual,
    ensures
        transfer_verdict(file, written, Some(actual)) == Err::<(), DownloadErrorView>(
            DownloadErrorView::ChecksumMismatch {
                expected: file.checksum->0.expected,
                actual,
                url: file.url,
                path: file.path,
            },
        ),
{
}

/// Checksum correctness in a batch: the stream of a descriptor whose payload
/// does not hash to the expected text ends in that checksum mismatch.
pub proof fn lemma_checksum_mismatch_fails_transfer(batch: BatchView, i: int)
    requires
        batch.valid(),
        batch.is_transferring(i),
        batch.files[i].checksum is Some,
        batch.received_digest(i) != Some(batch.files[i].checksum->0.expected),
    ensures
        batch.after(Event::Finish { i }).slots[i].stage == (StageView::Done {
            outcome: TransferOutcomeView::Failed(
                DownloadErrorView::ChecksumMismatch {
                    expected: batch.files[i].checksum->0.expected,
                    actual: batch.received_digest(i)->0,
                    url: batch.files[i].url,
                    path: batch.files[i].path,
                },
            ),
        }),
{
}

/// Size check: a descriptor with a declared size and either no checksum or a
/// matching one fails with a size mismatch exactly when the bytes written
/// differ from the declared size.
pub proof fn lemma_size_mismatch(file: DownloadableView, written: u64, actual: Option<Seq<char>>)
    requires
        file.size is Some,
        file.checksum is Some && actual is Some ==> file.checksum->0.expected == actual->0,
    ensures
        transfer_verdict(file, written, actual) == (if file.size->0 == written {
            Ok::<(), DownloadErrorView>(())
        } else {
            Err(DownloadErrorView::SizeMismatch { expected: file.size->0, actual: written })
        }),
{
}

/// Dynamic size growth, one chunk: for a descriptor that declared no size or
/// size zero, every chunk raises the expected total and the bytes done by its
/// length, and the descriptor has put the same amount, the length of its
/// payload, into both.
/// A size declared as zero is a declared size all the same: it is held
/// against the bytes written when the stream ends.
pub proof fn lemma_dynamic_growth_step(batch: BatchView, i: int, data: Seq<u8>)
    requires
        batch.valid(),
        batch.accepts_chunk(i, data),
        batch.files[i].declared_size() == 0,
    ensures
        ({
            let after = batch.after(Event::Chunk { i, data });
            &&& after.slots[i].completed == batch.slots[i].completed + data.len()
            &&& after.slots[i].credited == after.slots[i].completed
            &&& after.slots[i].stage->received.len() == after.slots[i].completed
            &&& after.progress.total_size == wrapping_add(
                batch.progress.total_size,
                data.len() as u64,
            )
            &&& after.progress.current_size == wrapping_add(
                batch.progress.current_size,
                data.len() as u64,
            )
        }),
{
}

/// Dynamic size growth, whole stream: a descriptor that declared no size or
/// size zero and receives a payload of `payload_len(chunks)` bytes, in chunks
/// of any sizes, has raised the expected total and the bytes done by exactly
/// that many bytes, as long as the expected total stays within `u64`.
pub proof fn lemma_dynamic_growth(batch: BatchView, i: int, chunks: Seq<Seq<u8>>)
    requires
        batch.valid(),
        batch.is_transferring(i),
        batch.slots[i].completed == 0,
        batch.files[i].declared_size() == 0,
        total(batch.slots, credited()) + payload_len(chunks) <= u64::MAX,
    ensures
        ({
            let after = batch.after_chunks(i, chunks);
            &&& after.valid()
            &&& after.is_transferring(i)
            &&& after.slots[i].completed == payload_len(chunks)
            &&& after.slots[i].credited == payload_len(chunks)
            &&& after.progress.total_size == batch.progress.total_size + payload_len(chunks)
            &&& after.progress.current_size == batch.progress.current_size + payload_len(chunks)
            &&& total(after.slots, credited()) == total(batch.slots, credited()) + payload_len(
                chunks,
            )
        }),
    decreases chunks.len(),
{
    if chunks.len() > 0 {
        let rest = chunks.drop_last();
        lemma_dynamic_growth(batch, i, rest);
        let middle = batch.after_chunks(i, rest);
        let event = Event::Chunk { i, data: chunks.last() };
        let after = middle.after(event);
        lemma_chunk_valid(middle, i, chunks.last());
        lemma_total_update(middle.slots, i, after.slots[i], credited());
        lemma_total_update(middle.slots, i, after.slots[i], completed());
    }
}

/// Order independence: where no descriptor failed, the result of a batch
/// depends on which outcomes occurred and not on their order.
pub proof fn lemma_result_order_independent(
    first: Seq<TransferOutcomeView>,
    second: Seq<TransferOutcomeView>,
    required: bool,
)
    requires
        first.to_multiset() == second.to_multiset(),
        batch_result(first, Ok(required)),
    ensures
        batch_result(second, Ok(required)),
{
    first.to_multiset_ensures();
    second.to_multiset_ensures();
    assert forall|j: int| 0 <= j < second.len() implies !(#[trigger] second[j] is Failed) by {
        assert(second.to_multiset().count(second[j]) > 0);
    }
    if any_requires_download(first) {
        let k = choose|k: int| 0 <= k < first.len() && (#[trigger] first[k]).requires_download();
        assert(first.to_multiset().count(first[k]) > 0);
    }
    if any_requires_download(second) {
        let j = choose|j: int| 0 <= j < second.len() && (#[trigger] second[j]).requires_download();
        assert(second.to_multiset().count(second[j]) > 0);
    }
}

} // verus!
