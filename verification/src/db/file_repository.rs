//! The record kept per file: its path and the hex text of its digest.

use vstd::prelude::*;

verus! {

/// One row of the store.
#[derive(Debug, Clone, PartialEq, Eq)]
pub struct File {
    pub filepath: String,
    pub hash: String,
}

/// A record as text: path and hash.
pub struct FileView {
    pub filepath: Seq<char>,
    pub hash: Seq<char>,
}

impl View for File {
    type V = FileView;

    open spec fn view(&self) -> FileView {
        FileView { filepath: self.filepath@, hash: self.hash@ }
    }
}

/// The view of a lookup's outcome.
pub open spec fn record_view(record: Option<File>) -> Option<FileView> {
    match record {
        Some(f) => Some(f@),
        None => None,
    }
}

} // verus!
