//! Scan strategies and what they report of a file.

pub mod hash_strategy;

pub use hash_strategy::SHA256FileScanStrategy;

use crate::db::file_repository::{File, FileView, record_view};
use vstd::prelude::*;

verus! {

/// What a strategy found out about one file.
#[derive(Debug, Clone, PartialEq, Eq)]
pub enum FileStatus {
    NewFile(String),
    FileChanged(String),
    MaliciousFile(String),
    /// The path, and the text of the error that reading it gave.
    ReadFailed(String, String),
    OK(String),
}

/// A status as text.
pub enum StatusView {
    NewFile(Seq<char>),
    FileChanged(Seq<char>),
    MaliciousFile(Seq<char>),
    ReadFailed(Seq<char>, Seq<char>),
    OK(Seq<char>),
}

impl View for FileStatus {
    type V = StatusView;

    open spec fn view(&self) -> StatusView {
        match self {
            FileStatus::NewFile(p) => StatusView::NewFile(p@),
            FileStatus::FileChanged(p) => StatusView::FileChanged(p@),
            FileStatus::MaliciousFile(p) => StatusView::MaliciousFile(p@),
            FileStatus::ReadFailed(p, e) => StatusView::ReadFailed(p@, e@),
            FileStatus::OK(p) => StatusView::OK(p@),
        }
    }
}

/// A status together with the name of the strategy that gave it.
#[derive(Debug, Clone, PartialEq, Eq)]
pub struct StrategyResult {
    pub strategy: String,
    pub result: FileStatus,
}

/// A result as text.
pub struct ResultView {
    pub strategy: Seq<char>,
    pub result: StatusView,
}

impl View for StrategyResult {
    type V = ResultView;

    open spec fn view(&self) -> ResultView {
        ResultView { strategy: self.strategy@, result: self.result@ }
    }
}

/// A way of judging a file from its contents. Each strategy states, by
/// its spec functions, the name it reports under, the status it gives and
/// the record it asks the store to keep.
pub trait ScanStrategy {
    spec fn name_spec(&self) -> Seq<char>;

    spec fn status_spec(&self, path: Seq<char>, data: Seq<u8>, stored: Option<FileView>) -> StatusView;

    spec fn record_spec(&self, path: Seq<char>, data: Seq<u8>) -> FileView;

    fn get_name(&self) -> (name: &str)
        ensures
            name@ == self.name_spec(),
    ;

    /// The status of `path` with contents `data`. `stored` is what the
    /// store holds for `path`, looked up before the call; its hash is hex
    /// text, as the store only receives records made by `update`.
    fn process(&self, path: &str, data: &[u8], stored: &Option<File>) -> (status: FileStatus)
        requires
            stored matches Some(f) ==> crate::hexcodec::is_hex_text(f.hash@),
        ensures
            status@ == self.status_spec(path@, data@, record_view(*stored)),
    ;

    /// The record that the store should hold for `path` from now on.
    fn update(&self, path: &str, data: &[u8]) -> (record: File)
        ensures
            record@ == self.record_spec(path@, data@),
    ;
}

/// A second pass over a file that another strategy has judged: it may
/// give a new status, or none.
pub trait ProcessStrategy {
    fn process(&self, status: &FileStatus, path: &str, data: &[u8]) -> Option<FileStatus>;

    fn get_name(&self) -> &str;
}

} // verus!
