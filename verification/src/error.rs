//! Failures of a transfer.

use crate::descriptor::{Downloadable, DownloadableView};
use vstd::prelude::*;

verus! {

/// Why a transfer failed.
#[derive(Debug, PartialEq, Eq)]
#[allow(inconsistent_fields)]
pub enum DownloadError {
    /// The server answered with a status outside 200..=299.
    Non200StatusCode(Downloadable, u16),
    /// The number of bytes written differs from the declared size.
    SizeMismatch { expected: u64, actual: u64 },
    /// The digest of the bytes written differs from the declared checksum.
    ChecksumMismatch { expected: String, actual: String, url: String, path: String },
    /// A filesystem or channel failure, with its message.
    GenericDownload(String),
    /// A failure of the HTTP layer, with its message.
    Transport(String),
}

/// Mathematical content of a [`DownloadError`].
#[allow(inconsistent_fields)]
pub enum DownloadErrorView {
    Non200StatusCode(DownloadableView, u16),
    SizeMismatch { expected: u64, actual: u64 },
    ChecksumMismatch { expected: Seq<char>, actual: Seq<char>, url: Seq<char>, path: Seq<char> },
    GenericDownload(Seq<char>),
    Transport(Seq<char>),
}

impl View for DownloadError {
    type V = DownloadErrorView;

    open spec fn view(&self) -> DownloadErrorView {
        match self {
            DownloadError::Non200StatusCode(file, status) => DownloadErrorView::Non200StatusCode(
                file@,
                *status,
            ),
            DownloadError::SizeMismatch { expected, actual } => DownloadErrorView::SizeMismatch {
                expected: *expected,
                actual: *actual,
            },
            DownloadError::ChecksumMismatch {
                expected,
                actual,
                url,
                path,
            } => DownloadErrorView::ChecksumMismatch {
                expected: expected@,
                actual: actual@,
                url: url@,
                path: path@,
            },
            DownloadError::GenericDownload(message) => DownloadErrorView::GenericDownload(message@),
            DownloadError::Transport(message) => DownloadErrorView::Transport(message@),
        }
    }
}

impl Clone for DownloadError {
    fn clone(&self) -> (copy: Self)
        ensures
            copy@ == self@,
    {
        match self {
            DownloadError::Non200StatusCode(file, status) => DownloadError::Non200StatusCode(
                file.clone(),
                *status,
            ),
            DownloadError::SizeMismatch { expected, actual } => DownloadError::SizeMismatch {
                expected: *expected,
                actual: *actual,
            },
            DownloadError::ChecksumMismatch {
                expected,
                actual,
                url,
                path,
            } => DownloadError::ChecksumMismatch {
                expected: expected.clone(),
                actual: actual.clone(),
                url: url.clone(),
                path: path.clone(),
            },
            DownloadError::GenericDownload(message) => DownloadError::GenericDownload(
                message.clone(),
            ),
            DownloadError::Transport(message) => DownloadError::Transport(message.clone()),
        }
    }
}

} // verus!
