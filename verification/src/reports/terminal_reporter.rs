//! The reporter that writes one line per finding to the terminal.

use crate::reports::{Reporter, line_text};
use crate::strategies::{FileStatus, ResultView, StatusView, StrategyResult};
use vstd::prelude::*;

verus! {

/// The line shown for `result`: none for an unchanged file, none for a
/// read failure when quiet, and otherwise a line naming the strategy (or,
/// for a read failure, the path) and what was found.
pub open spec fn terminal_line(quiet: bool, result: ResultView) -> Option<Seq<char>> {
    match result.result {
        StatusView::OK(_) => None,
        StatusView::NewFile(p) => Some(result.strategy + ": found new file: "@ + p),
        StatusView::FileChanged(p) => Some(result.strategy + ": file was changed: "@ + p),
        StatusView::MaliciousFile(p) => Some(result.strategy + ": malicious file found: "@ + p),
        StatusView::ReadFailed(p, e) => if quiet {
            None
        } else {
            Some(p + ": failed to read file: "@ + e)
        },
    }
}

/// Prints findings; when quiet, read failures are left out.
pub struct TerminalReporter {
    quiet: bool,
}

impl TerminalReporter {
    pub fn new(quiet: bool) -> (reporter: TerminalReporter)
        ensures
            reporter.is_quiet() == quiet,
    {
        TerminalReporter { quiet }
    }

    pub closed spec fn is_quiet(&self) -> bool {
        self.quiet
    }
}

impl Reporter for TerminalReporter {
    open spec fn line_spec(&self, result: ResultView) -> Option<Seq<char>> {
        terminal_line(self.is_quiet(), result)
    }

    fn report(&self, result: &StrategyResult) -> (line: Option<String>) {
        match &result.result {
            FileStatus::OK(_) => None,
            FileStatus::NewFile(path) => {
                let mut line = result.strategy.clone();
                line.append(": found new file: ");
                line.append(path.as_str());
                Some(line)
            },
            FileStatus::FileChanged(path) => {
                let mut line = result.strategy.clone();
                line.append(": file was changed: ");
                line.append(path.as_str());
                Some(line)
            },
            FileStatus::MaliciousFile(path) => {
                let mut line = result.strategy.clone();
                line.append(": malicious file found: ");
                line.append(path.as_str());
                Some(line)
            },
            FileStatus::ReadFailed(path, error) => {
                if self.quiet {
                    None
                } else {
                    let mut line = path.clone();
                    line.append(": failed to read file: ");
                    line.append(error.as_str());
                    Some(line)
                }
            },
        }
    }
}

/// Quiet and loud reporters show the same line for every result but a
/// read failure, and neither shows a line for an unchanged file.
pub proof fn lemma_quiet_hides_only_read_failures(result: ResultView)
    ensures
        !(result.result is ReadFailed) ==> terminal_line(true, result) == terminal_line(false, result),
        result.result is ReadFailed ==> terminal_line(true, result) is None && terminal_line(false, result) is Some,
        result.result is OK ==> terminal_line(false, result) is None,
{
}

/// Every finding but an unchanged file is shown, and a read failure only
/// when not quiet. A shown line names who found it (the strategy, or for a
/// read failure the path), then what was found, and ends with the subject
/// (the path, or for a read failure the error).
pub proof fn lemma_lines_name_finder_and_subject(quiet: bool, result: ResultView)
    ensures
        terminal_line(quiet, result) is Some <==> !(result.result is OK) && !(quiet && result.result is ReadFailed),
        result.result matches StatusView::NewFile(p) ==> terminal_line(quiet, result) == Some(
            result.strategy + ": found new file: "@ + p,
        ),
        result.result matches StatusView::FileChanged(p) ==> terminal_line(quiet, result) == Some(
            result.strategy + ": file was changed: "@ + p,
        ),
        result.result matches StatusView::MaliciousFile(p) ==> terminal_line(quiet, result) == Some(
            result.strategy + ": malicious file found: "@ + p,
        ),
        result.result matches StatusView::ReadFailed(p, e) ==> (!quiet ==> terminal_line(quiet, result) == Some(
            p + ": failed to read file: "@ + e,
        )),
{
}

} // verus!
