//! One worker's share of a scan: for each path it was given, the outcome
//! of reading the file is turned into results to report or records to store.

use crate::db::file_repository::{File, FileView, record_view};
use crate::strategies::{FileStatus, ResultView, SHA256FileScanStrategy, ScanStrategy, StatusView, StrategyResult};
use vstd::prelude::*;

verus! {

/// What reading a path gave.
pub enum ReadOutcome {
    /// The path names a directory, which is skipped.
    Directory,
    /// The file's contents.
    Contents(Vec<u8>),
    /// Reading failed, with the text of the error.
    Failed(String),
}

/// A read outcome as plain values.
pub enum ReadView {
    Directory,
    Contents(Seq<u8>),
    Failed(Seq<char>),
}

impl View for ReadOutcome {
    type V = ReadView;

    open spec fn view(&self) -> ReadView {
        match self {
            ReadOutcome::Directory => ReadView::Directory,
            ReadOutcome::Contents(data) => ReadView::Contents(data@),
            ReadOutcome::Failed(e) => ReadView::Failed(e@),
        }
    }
}

/// What processing a path asks of the caller.
#[derive(Debug)]
pub enum Action {
    /// Hand this result to the reporters.
    Report(StrategyResult),
    /// Write this record to the store.
    Store(File),
}

/// An action as plain values.
pub enum ActionView {
    Report(ResultView),
    Store(FileView),
}

impl View for Action {
    type V = ActionView;

    open spec fn view(&self) -> ActionView {
        match self {
            Action::Report(r) => ActionView::Report(r@),
            Action::Store(f) => ActionView::Store(f@),
        }
    }
}

/// The name under which read failures are reported.
pub open spec fn coordinator_name() -> Seq<char> {
    "Coordinator"@
}

/// The action that strategy `s` asks for on a file read as `data`.
pub open spec fn strategy_action<S: ScanStrategy>(
    s: S,
    update: bool,
    path: Seq<char>,
    data: Seq<u8>,
    stored: Option<FileView>,
) -> ActionView {
    if update {
        ActionView::Store(s.record_spec(path, data))
    } else {
        ActionView::Report(ResultView { strategy: s.name_spec(), result: s.status_spec(path, data, stored) })
    }
}

/// The actions for one path, in order: none for a directory, one report
/// from the coordinator for a failed read, and otherwise one action per
/// strategy, in the order of the strategies.
pub open spec fn entry_actions<S: ScanStrategy>(
    strategies: Seq<S>,
    update: bool,
    path: Seq<char>,
    outcome: ReadView,
    stored: Option<FileView>,
) -> Seq<ActionView> {
    match outcome {
        ReadView::Directory => Seq::empty(),
        ReadView::Failed(e) => seq![
            ActionView::Report(ResultView { strategy: coordinator_name(), result: StatusView::ReadFailed(path, e) }),
        ],
        ReadView::Contents(data) => Seq::new(
            strategies.len(),
            |i: int| strategy_action(strategies[i], update, path, data, stored),
        ),
    }
}

/// Scans a share of the paths with its strategies, either checking files
/// against the store or, in update mode, rewriting their records.
pub struct ScanCoordinator<S: ScanStrategy> {
    /// The number that tells this coordinator apart in logs.
    pub id: u16,
    pub paths: Vec<String>,
    pub strategies: Vec<S>,
    pub update: bool,
}

impl ScanCoordinator<SHA256FileScanStrategy> {
    /// A coordinator numbered `id` for `paths`, with the SHA-256 strategy.
    pub fn new(update: bool, paths: Vec<String>, id: u16) -> (c: ScanCoordinator<SHA256FileScanStrategy>)
        ensures
            c.id == id,
            c.update == update,
            c.paths@ == paths@,
            c.strategies@.len() == 1,
    {
        let mut strategies: Vec<SHA256FileScanStrategy> = Vec::new();
        strategies.push(SHA256FileScanStrategy::new());
        ScanCoordinator { id, paths, strategies, update }
    }
}

impl<S: ScanStrategy> ScanCoordinator<S> {
    /// Adds a strategy, run after those already there.
    pub fn add_scan_strategy(&mut self, strategy: S)
        ensures
            final(self).strategies@ == old(self).strategies@.push(strategy),
            final(self).paths@ == old(self).paths@,
            final(self).update == old(self).update,
            final(self).id == old(self).id,
    {
        self.strategies.push(strategy);
    }

    /// The actions for `path`, given what reading it gave and what the
    /// store holds for it (looked up only for a scan of readable contents).
    pub fn process_entry(&self, path: &str, outcome: ReadOutcome, stored: Option<File>) -> (actions: Vec<Action>)
        requires
            stored matches Some(f) ==> crate::hexcodec::is_hex_text(f.hash@),
        ensures
            actions@.map_values(|a: Action| a@) == entry_actions(
                self.strategies@,
                self.update,
                path@,
                outcome@,
                record_view(stored),
            ),
    {
        let ghost expected = entry_actions(self.strategies@, self.update, path@, outcome@, record_view(stored));
        let mut actions: Vec<Action> = Vec::new();
        match outcome {
            ReadOutcome::Directory => {},
            ReadOutcome::Failed(e) => {
                let result = StrategyResult {
                    strategy: String::from_str("Coordinator"),
                    result: FileStatus::ReadFailed(path.to_owned(), e),
                };
                actions.push(Action::Report(result));
            },
            ReadOutcome::Contents(data) => {
                let mut i: usize = 0;
                while i < self.strategies.len()
                    invariant
                        i <= self.strategies@.len(),
                        stored matches Some(f) ==> crate::hexcodec::is_hex_text(f.hash@),
                        outcome@ == ReadView::Contents(data@),
                        expected == entry_actions(self.strategies@, self.update, path@, outcome@, record_view(stored)),
                        actions@.len() == i,
                        forall|j: int| 0 <= j < i ==> #[trigger] actions@[j]@ == expected[j],
                    decreases self.strategies@.len() - i,
                {
                    let strategy = &self.strategies[i];
                    if self.update {
                        let record = strategy.update(path, data.as_slice());
                        actions.push(Action::Store(record));
                    } else {
                        let status = strategy.process(path, data.as_slice(), &stored);
                        let name = strategy.get_name();
                        actions.push(Action::Report(StrategyResult { strategy: String::from_str(name), result: status }));
                    }
                    i = i + 1;
                }
            },
        }
        proof {
            assert(actions@.map_values(|a: Action| a@) =~= expected);
        }
        actions
    }
}

/// A readable file gives one action per strategy, in the strategies' order:
/// in update mode the record that strategy makes of the path and the whole
/// contents, in scan mode a report, under that strategy's name, of the
/// status it gives for the same path, contents and stored record.
pub proof fn lemma_contents_give_one_action_per_strategy<S: ScanStrategy>(
    strategies: Seq<S>,
    update: bool,
    path: Seq<char>,
    data: Seq<u8>,
    stored: Option<FileView>,
)
    ensures
        entry_actions(strategies, update, path, ReadView::Contents(data), stored).len() == strategies.len(),
        forall|i: int|
            0 <= i < strategies.len() ==> #[trigger] entry_actions(strategies, update, path, ReadView::Contents(data), stored)[i]
                == if update {
                ActionView::Store(strategies[i].record_spec(path, data))
            } else {
                ActionView::Report(
                    ResultView { strategy: strategies[i].name_spec(), result: strategies[i].status_spec(path, data, stored) },
                )
            },
{
}

/// A failed read gives a single report, from "Coordinator", of the path
/// and the error, whatever the mode, the strategies or the store.
pub proof fn lemma_failed_read_reported_once<S: ScanStrategy>(
    strategies: Seq<S>,
    update: bool,
    path: Seq<char>,
    error: Seq<char>,
    stored: Option<FileView>,
)
    ensures
        entry_actions(strategies, update, path, ReadView::Failed(error), stored) == seq![
            ActionView::Report(ResultView { strategy: "Coordinator"@, result: StatusView::ReadFailed(path, error) }),
        ],
{
}

/// A directory gives no action at all.
pub proof fn lemma_directory_is_skipped<S: ScanStrategy>(
    strategies: Seq<S>,
    update: bool,
    path: Seq<char>,
    stored: Option<FileView>,
)
    ensures
        entry_actions(strategies, update, path, ReadView::Directory, stored).len() == 0,
{
}

/// A scan of a readable file that the store has no record of reports it as
/// new from every SHA-256 strategy, under that strategy's name.
pub proof fn lemma_scan_of_unrecorded_file_is_new(
    strategies: Seq<SHA256FileScanStrategy>,
    path: Seq<char>,
    data: Seq<u8>,
    i: int,
)
    requires
        0 <= i < strategies.len(),
    ensures
        entry_actions(strategies, false, path, ReadView::Contents(data), None)[i] == ActionView::Report(
            ResultView { strategy: "SHA256FileScanStrategy"@, result: StatusView::NewFile(path) },
        ),
{
}

/// In update mode a readable file only ever gives records to store, one per
/// strategy; in scan mode it only ever gives results to report.
pub proof fn lemma_modes_keep_apart<S: ScanStrategy>(
    strategies: Seq<S>,
    path: Seq<char>,
    data: Seq<u8>,
    stored: Option<FileView>,
)
    ensures
        entry_actions(strategies, true, path, ReadView::Contents(data), stored).len() == strategies.len(),
        forall|i: int|
            0 <= i < strategies.len() ==> (#[trigger] entry_actions(strategies, true, path, ReadView::Contents(data), stored)[i]) is Store,
        forall|i: int|
            0 <= i < strategies.len() ==> (#[trigger] entry_actions(strategies, false, path, ReadView::Contents(data), stored)[i]) is Report,
{
}

/// Once an update has stored the record made from a file's contents, a scan
/// of the same contents reports the file unchanged from every strategy.
pub proof fn lemma_update_then_scan_is_ok(
    strategies: Seq<SHA256FileScanStrategy>,
    path: Seq<char>,
    data: Seq<u8>,
    i: int,
    j: int,
)
    requires
        0 <= i < strategies.len(),
        0 <= j < strategies.len(),
    ensures
        entry_actions(strategies, true, path, ReadView::Contents(data), None)[i] matches ActionView::Store(record)
            && entry_actions(strategies, false, path, ReadView::Contents(data), Some(record))[j]
            == ActionView::Report(ResultView { strategy: "SHA256FileScanStrategy"@, result: StatusView::OK(path) }),
{
    crate::strategies::hash_strategy::lemma_unchanged_file_is_ok(path, data);
}

} // verus!
