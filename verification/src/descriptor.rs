//! Download descriptors: what to fetch, where to put it, and what the result
//! is expected to look like.

use crate::checksum::{Checksum, ChecksumView};
use vstd::prelude::*;
use vstd::string::StringExecFns;

verus! {

/// One remote resource and its destination.
#[derive(Debug, PartialEq, Eq)]
pub struct Downloadable {
    pub url: String,
    pub path: String,
    pub checksum: Option<Checksum>,
    pub size: Option<u64>,
}

/// Mathematical content of a [`Downloadable`].
pub struct DownloadableView {
    pub url: Seq<char>,
    pub path: Seq<char>,
    pub checksum: Option<ChecksumView>,
    pub size: Option<u64>,
}

/// View of an optional checksum.
pub open spec fn checksum_view(checksum: Option<Checksum>) -> Option<ChecksumView> {
    match checksum {
        Some(checksum) => Some(checksum@),
        None => None,
    }
}

impl View for Downloadable {
    type V = DownloadableView;

    open spec fn view(&self) -> DownloadableView {
        DownloadableView {
            url: self.url@,
            path: self.path@,
            checksum: checksum_view(self.checksum),
            size: self.size,
        }
    }
}

/// Views of a list of descriptors.
pub open spec fn file_views(files: Seq<Downloadable>) -> Seq<DownloadableView> {
    files.map_values(|file: Downloadable| file@)
}

impl DownloadableView {
    /// The declared size, or zero where none was declared.
    pub open spec fn declared_size(self) -> u64 {
        match self.size {
            Some(size) => size,
            None => 0,
        }
    }

    /// The text form `url -> path`.
    pub open spec fn text(self) -> Seq<char> {
        self.url + " -> "@ + self.path
    }
}

impl Clone for Downloadable {
    fn clone(&self) -> (copy: Self)
        ensures
            copy@ == self@,
    {
        let checksum = match &self.checksum {
            Some(checksum) => Some(checksum.clone()),
            None => None,
        };
        Downloadable { url: self.url.clone(), path: self.path.clone(), checksum, size: self.size }
    }
}

impl Downloadable {
    /// A descriptor with no expected checksum and no expected size.
    pub fn new(url: &str, path: &str) -> (file: Self)
        ensures
            file@ == (DownloadableView { url: url@, path: path@, checksum: None, size: None }),
    {
        Downloadable {
            url: String::from_str(url),
            path: String::from_str(path),
            checksum: None,
            size: None,
        }
    }

    /// Replaces the expected checksum.
    pub fn with_checksum(self, checksum: Option<Checksum>) -> (file: Self)
        ensures
            file@ == (DownloadableView { checksum: checksum_view(checksum), ..self@ }),
    {
        let mut file = self;
        file.checksum = checksum;
        file
    }

    /// Sets the expected size.
    pub fn with_size(self, size: u64) -> (file: Self)
        ensures
            file@ == (DownloadableView { size: Some(size), ..self@ }),
    {
        let mut file = self;
        file.size = Some(size);
        file
    }

    /// The declared size, or zero where none was declared.
    pub fn declared_size(&self) -> (size: u64)
        ensures
            size == self@.declared_size(),
    {
        match self.size {
            Some(size) => size,
            None => 0,
        }
    }

    /// The text form `url -> path`.
    pub fn to_string(&self) -> (text: String)
        ensures
            text@ == self@.text(),
    {
        let mut text = self.url.clone();
        text.append(" -> ");
        text.append(self.path.as_str());
        text
    }
}

/// Conversion of a catalogue entry into the descriptors it stands for, with
/// destinations below `base_path`.
pub trait IntoVecDownloadable {
    fn into_vec_downloadable(self, base_path: &str) -> Vec<Downloadable>;
}

/// Conversion of a catalogue entry into its descriptor, with the destination
/// below `base_path`.
pub trait IntoDownloadable {
    fn into_downloadable(self, base_path: &str) -> Downloadable;
}

} // verus!
