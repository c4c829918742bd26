//! Reporters: what is shown of each result as it comes in.

pub mod report_manager;
pub mod terminal_reporter;

pub use report_manager::ReportManager;

use crate::strategies::{ResultView, StrategyResult};
use vstd::prelude::*;

verus! {

/// The text of an optional line.
pub open spec fn line_text(line: Option<String>) -> Option<Seq<char>> {
    match line {
        Some(s) => Some(s@),
        None => None,
    }
}

/// Something that turns a result into the line it shows, if any.
pub trait Reporter {
    spec fn line_spec(&self, result: ResultView) -> Option<Seq<char>>;

    fn report(&self, result: &StrategyResult) -> (line: Option<String>)
        ensures
            line_text(line) == self.line_spec(result@),
    ;
}

} // verus!
