//! The decision, taken before any network access, whether a destination
//! already holds what its descriptor asks for.

use crate::checksum::{hex_digest, ChecksumView};
use crate::descriptor::Downloadable;
use vstd::prelude::*;

verus! {

/// What the filesystem shows at a destination.
#[derive(Debug, Clone, Copy, PartialEq, Eq, Structural)]
pub enum LocalFile {
    /// Nothing exists at the path.
    Missing,
    /// Something exists at the path; `len` is its length, or `None` where the
    /// metadata could not be read.
    Present { len: Option<u64> },
}

/// Verdict of the quick check.
#[derive(Debug, Clone, Copy, PartialEq, Eq, Structural)]
pub enum Freshness {
    LooksFresh,
    NeedsDownload,
}

/// What to do with a descriptor once the quick check is made.
#[derive(Debug, Clone, Copy, PartialEq, Eq, Structural)]
pub enum Plan {
    /// The destination is taken as fresh; nothing more happens.
    Skip,
    /// The destination looks fresh and its content is to be hashed under
    /// the algorithm the descriptor names.
    DeepVerify,
    /// A download is needed and is only reported, not made.
    Report,
    /// A download is needed and is made.
    Transfer,
}

/// With a declared size, a destination looks fresh when it exists and has
/// exactly that length; without one, when it exists.
pub open spec fn looks_fresh(size: Option<u64>, local: LocalFile) -> bool {
    match size {
        Some(size) => local == (LocalFile::Present { len: Some(size) }),
        None => local is Present,
    }
}

/// The plan for a descriptor: a fresh-looking destination is skipped, or
/// hashed where a deep check is asked for and the descriptor names a
/// checksum to hold the content against; a stale one is downloaded, or only
/// reported where downloads are to be skipped.
pub open spec fn plan_for(
    fresh: bool,
    checksum_named: bool,
    deep_check: bool,
    skip_download: bool,
) -> Plan {
    if fresh {
        if deep_check && checksum_named {
            Plan::DeepVerify
        } else {
            Plan::Skip
        }
    } else if skip_download {
        Plan::Report
    } else {
        Plan::Transfer
    }
}

/// A deep check confirms a destination when the digest of its content is
/// exactly the text the descriptor expects. Where the descriptor names no
/// checksum there is nothing to hold the content against, and the
/// destination is confirmed as it is.
pub open spec fn deep_confirms(checksum: Option<ChecksumView>, actual: Option<Seq<char>>) -> bool {
    match checksum {
        Some(checksum) => actual == Some(checksum.expected),
        None => true,
    }
}

/// The digest text of `content` under the algorithm that `checksum` names.
pub open spec fn digest_for(checksum: Option<ChecksumView>, content: Seq<u8>) -> Option<Seq<char>> {
    match checksum {
        Some(checksum) => Some(hex_digest(checksum.algorithm, content)),
        None => None,
    }
}

/// The quick check of one descriptor against what the filesystem shows.
pub fn quick_check(file: &Downloadable, local: LocalFile) -> (verdict: Freshness)
    ensures
        verdict == (if looks_fresh(file@.size, local) {
            Freshness::LooksFresh
        } else {
            Freshness::NeedsDownload
        }),
{
    let fresh = match (file.size, local) {
        (Some(size), LocalFile::Present { len: Some(len) }) => len == size,
        (Some(_), _) => false,
        (None, LocalFile::Present { .. }) => true,
        (None, LocalFile::Missing) => false,
    };
    if fresh {
        Freshness::LooksFresh
    } else {
        Freshness::NeedsDownload
    }
}

/// The plan that follows from a quick-check verdict, whether the descriptor
/// names a checksum, and the two mode flags.
pub fn plan(verdict: Freshness, checksum_named: bool, deep_check: bool, skip_download: bool) -> (plan:
    Plan)
    ensures
        plan == plan_for(
            verdict == Freshness::LooksFresh,
            checksum_named,
            deep_check,
            skip_download,
        ),
{
    match verdict {
        Freshness::LooksFresh => if deep_check && checksum_named {
            Plan::DeepVerify
        } else {
            Plan::Skip
        },
        Freshness::NeedsDownload => if skip_download {
            Plan::Report
        } else {
            Plan::Transfer
        },
    }
}

/// The deep check of one descriptor against the content found at its
/// destination. A descriptor without a checksum is confirmed whatever the
/// content.
pub fn deep_check(file: &Downloadable, content: &[u8]) -> (confirmed: bool)
    ensures
        confirmed == deep_confirms(file@.checksum, digest_for(file@.checksum, content@)),
{
    match &file.checksum {
        Some(checksum) => checksum.verify(content),
        None => true,
    }
}

} // verus!
