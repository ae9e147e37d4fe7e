//! The rules of one transfer: which responses are accepted, how the written
//! file is held against its descriptor, and how the outcomes of many
//! transfers reduce to the result of a batch.

use crate::descriptor::{Downloadable, DownloadableView};
use crate::error::{DownloadError, DownloadErrorView};
use vstd::prelude::*;
use vstd::string::StringExecFns;

verus! {

/// How the work on one descriptor ended.
#[derive(Debug, PartialEq, Eq)]
pub enum TransferOutcome {
    /// The destination was already fresh; the network was not used.
    Fresh,
    /// The resource was fetched and passed verification.
    Downloaded,
    /// A download is needed, and was left undone because downloads are
    /// skipped.
    Required,
    /// The transfer failed.
    Failed(DownloadError),
}

/// Mathematical content of a [`TransferOutcome`].
pub enum TransferOutcomeView {
    Fresh,
    Downloaded,
    Required,
    Failed(DownloadErrorView),
}

impl View for TransferOutcome {
    type V = TransferOutcomeView;

    open spec fn view(&self) -> TransferOutcomeView {
        match self {
            TransferOutcome::Fresh => TransferOutcomeView::Fresh,
            TransferOutcome::Downloaded => TransferOutcomeView::Downloaded,
            TransferOutcome::Required => TransferOutcomeView::Required,
            TransferOutcome::Failed(error) => TransferOutcomeView::Failed(error@),
        }
    }
}

impl TransferOutcomeView {
    /// Whether this outcome means that a download was made or is needed.
    pub open spec fn requires_download(self) -> bool {
        self is Downloaded || self is Required
    }
}

impl Clone for TransferOutcome {
    fn clone(&self) -> (copy: Self)
        ensures
            copy@ == self@,
    {
        match self {
            TransferOutcome::Fresh => TransferOutcome::Fresh,
            TransferOutcome::Downloaded => TransferOutcome::Downloaded,
            TransferOutcome::Required => TransferOutcome::Required,
            TransferOutcome::Failed(error) => TransferOutcome::Failed(error.clone()),
        }
    }
}

impl TransferOutcome {
    /// Whether this outcome means that a download was made or is needed.
    pub fn requires_download(&self) -> (required: bool)
        ensures
            required == self@.requires_download(),
    {
        match self {
            TransferOutcome::Downloaded => true,
            TransferOutcome::Required => true,
            _ => false,
        }
    }
}

/// The statuses that count as success: 200 to 299.
pub open spec fn is_success(status: u16) -> bool {
    200 <= status <= 299
}

/// View of the result of a check.
pub open spec fn check_view(result: Result<(), DownloadError>) -> Result<(), DownloadErrorView> {
    match result {
        Ok(()) => Ok(()),
        Err(error) => Err(error@),
    }
}

/// View of an optional text.
pub open spec fn text_view(text: Option<&String>) -> Option<Seq<char>> {
    match text {
        Some(text) => Some(text@),
        None => None,
    }
}

/// The verdict on a response status: every status outside 200..=299 fails
/// the transfer.
pub open spec fn status_verdict(file: DownloadableView, status: u16) -> Result<
    (),
    DownloadErrorView,
> {
    if is_success(status) {
        Ok(())
    } else {
        Err(DownloadErrorView::Non200StatusCode(file, status))
    }
}

/// The verdict on a finished stream of `written` bytes whose digest text is
/// `actual`. The checksum is held against the digest first; the declared size
/// is then held against the byte count, with or without a checksum.
pub open spec fn transfer_verdict(
    file: DownloadableView,
    written: u64,
    actual: Option<Seq<char>>,
) -> Result<(), DownloadErrorView> {
    if file.checksum is Some && actual is Some && file.checksum->0.expected != actual->0 {
        Err(
            DownloadErrorView::ChecksumMismatch {
                expected: file.checksum->0.expected,
                actual: actual->0,
                url: file.url,
                path: file.path,
            },
        )
    } else if file.size is Some && file.size->0 != written {
        Err(DownloadErrorView::SizeMismatch { expected: file.size->0, actual: written })
    } else {
        Ok(())
    }
}

/// The error for a destination that has no parent directory.
pub open spec fn no_parent_error() -> DownloadErrorView {
    DownloadErrorView::GenericDownload("Can't create folder"@)
}

/// Accepts a response status in 200..=299 and rejects every other one.
pub fn check_status(file: &Downloadable, status: u16) -> (result: Result<(), DownloadError>)
    ensures
        check_view(result) == status_verdict(file@, status),
{
    if 200 <= status && status <= 299 {
        Ok(())
    } else {
        Err(DownloadError::Non200StatusCode(file.clone(), status))
    }
}

/// The directory that has to exist before the destination is opened, given
/// the parent of the destination path as the platform computes it.
pub fn require_parent(parent: Option<String>) -> (result: Result<String, DownloadError>)
    ensures
        match (parent, result) {
            (Some(parent), Ok(directory)) => directory@ == parent@,
            (None, Err(error)) => error@ == no_parent_error(),
            _ => false,
        },
{
    match parent {
        Some(parent) => Ok(parent),
        None => Err(DownloadError::GenericDownload(String::from_str("Can't create folder"))),
    }
}

/// Holds a finished stream against its descriptor. Where the descriptor
/// names a checksum, `actual` is the digest text of what was written; where
/// it names none, `actual` is not looked at.
pub fn verify_transfer(file: &Downloadable, written: u64, actual: Option<&String>) -> (result:
    Result<(), DownloadError>)
    requires
        file@.checksum is Some ==> actual is Some,
    ensures
        check_view(result) == transfer_verdict(file@, written, text_view(actual)),
{
    if let Some(checksum) = &file.checksum {
        if let Some(actual) = actual {
            if !checksum.matches_hex(actual) {
                return Err(
                    DownloadError::ChecksumMismatch {
                        expected: checksum.expected().clone(),
                        actual: actual.clone(),
                        url: file.url.clone(),
                        path: file.path.clone(),
                    },
                );
            }
        }
    }
    if let Some(size) = file.size {
        if size != written {
            return Err(DownloadError::SizeMismatch { expected: size, actual: written });
        }
    }
    Ok(())
}

/// Whether no outcome before position `end` is a failure.
pub open spec fn no_failure_before(outcomes: Seq<TransferOutcomeView>, end: int) -> bool {
    forall|j: int| 0 <= j < end && j < outcomes.len() ==> !(#[trigger] outcomes[j] is Failed)
}

/// Whether some outcome means that a download was made or is needed.
pub open spec fn any_requires_download(outcomes: Seq<TransferOutcomeView>) -> bool {
    exists|j: int| 0 <= j < outcomes.len() && (#[trigger] outcomes[j]).requires_download()
}

/// The result of a batch whose outcomes are all known: the first failure in
/// descriptor order, or else whether any descriptor needed a download.
pub open spec fn batch_result(outcomes: Seq<TransferOutcomeView>, result: Result<
    bool,
    DownloadErrorView,
>) -> bool {
    match result {
        Err(error) => exists|k: int|
            0 <= k < outcomes.len() && #[trigger] outcomes[k] == TransferOutcomeView::Failed(error)
                && no_failure_before(outcomes, k),
        Ok(required) => no_failure_before(outcomes, outcomes.len() as int) && required
            == any_requires_download(outcomes),
    }
}

/// View of a batch result.
pub open spec fn result_view(result: Result<bool, DownloadError>) -> Result<
    bool,
    DownloadErrorView,
> {
    match result {
        Ok(required) => Ok(required),
        Err(error) => Err(error@),
    }
}

/// View of a list of outcomes.
pub open spec fn outcomes_view(outcomes: Seq<TransferOutcome>) -> Seq<TransferOutcomeView> {
    outcomes.map_values(|outcome: TransferOutcome| outcome@)
}

/// Reduces the outcomes of all descriptors to the result of the batch.
pub fn reduce(outcomes: &Vec<TransferOutcome>) -> (result: Result<bool, DownloadError>)
    ensures
        batch_result(outcomes_view(outcomes@), result_view(result)),
{
    let ghost views = outcomes_view(outcomes@);
    let mut required = false;
    let mut i: usize = 0;
    while i < outcomes.len()
        invariant
            i <= outcomes.len(),
            views == outcomes_view(outcomes@),
            no_failure_before(views, i as int),
            required == (exists|j: int| 0 <= j < i && (#[trigger] views[j]).requires_download()),
        decreases outcomes.len() - i,
    {
        assert(views[i as int] == outcomes[i as int]@);
        match &outcomes[i] {
            TransferOutcome::Failed(error) => {
                return Err(error.clone());
            },
            outcome => {
                if outcome.requires_download() {
                    required = true;
                }
            },
        }
        i = i + 1;
    }
    Ok(required)
}

} // verus!
