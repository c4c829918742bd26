//! Hands each result to every reporter in turn.

use crate::reports::{Reporter, line_text};
use crate::strategies::{ResultView, StrategyResult};
use vstd::prelude::*;

verus! {

/// The lines that `reporters` show for `result`, in the reporters' order.
pub open spec fn manager_lines<R: Reporter>(reporters: Seq<R>, result: ResultView) -> Seq<Seq<char>>
    decreases reporters.len(),
{
    if reporters.len() == 0 {
        Seq::empty()
    } else {
        let earlier = manager_lines(reporters.drop_last(), result);
        match reporters.last().line_spec(result) {
            Some(line) => earlier.push(line),
            None => earlier,
        }
    }
}

/// The reporters that results are shown through.
pub struct ReportManager<R: Reporter> {
    pub reporters: Vec<R>,
}

impl<R: Reporter> ReportManager<R> {
    pub fn new() -> (manager: ReportManager<R>)
        ensures
            manager.reporters@.len() == 0,
    {
        ReportManager { reporters: Vec::new() }
    }

    /// Adds a reporter after those already there.
    pub fn add_reporter(&mut self, reporter: R)
        ensures
            final(self).reporters@ == old(self).reporters@.push(reporter),
    {
        self.reporters.push(reporter);
    }

    /// The lines that the reporters show for `result`, in their order.
    pub fn process_result(&self, result: &StrategyResult) -> (lines: Vec<String>)
        ensures
            lines@.map_values(|s: String| s@) == manager_lines(self.reporters@, result@),
    {
        let mut lines: Vec<String> = Vec::new();
        let mut i: usize = 0;
        while i < self.reporters.len()
            invariant
                i <= self.reporters@.len(),
                lines@.map_values(|s: String| s@) == manager_lines(self.reporters@.take(i as int), result@),
            decreases self.reporters@.len() - i,
        {
            let line = self.reporters[i].report(result);
            proof {
                let taken = self.reporters@.take(i + 1);
                assert(taken.drop_last() =~= self.reporters@.take(i as int));
                assert(taken.last() == self.reporters@[i as int]);
            }
            match line {
                Some(text) => {
                    lines.push(text);
                },
                None => {},
            }
            proof {
                assert(line_text(line) == self.reporters@[i as int].line_spec(result@));
            }
            i = i + 1;
        }
        proof {
            assert(self.reporters@.take(self.reporters@.len() as int) =~= self.reporters@);
        }
        lines
    }
}

/// Without reporters nothing is shown.
pub proof fn lemma_no_reporters_no_lines<R: Reporter>(result: ResultView)
    ensures
        manager_lines(Seq::<R>::empty(), result).len() == 0,
{
}

/// A reporter added last adds its own line, if it shows one, after the
/// lines of those before it, whether or not they showed any.
pub proof fn lemma_added_reporter_adds_its_line<R: Reporter>(reporters: Seq<R>, reporter: R, result: ResultView)
    ensures
        manager_lines(reporters.push(reporter), result) == manager_lines(reporters, result) + match reporter.line_spec(result) {
            Some(line) => seq![line],
            None => Seq::empty(),
        },
{
    assert(reporters.push(reporter).drop_last() =~= reporters);
    assert(reporters.push(reporter).last() == reporter);
    assert(manager_lines(reporters, result) + Seq::<Seq<char>>::empty() =~= manager_lines(reporters, result));
}

/// Two groups of reporters in a row show the first group's lines, then the
/// second's: no reporter's line depends on what the others showed.
pub proof fn lemma_lines_of_groups_concatenate<R: Reporter>(first: Seq<R>, second: Seq<R>, result: ResultView)
    ensures
        manager_lines(first + second, result) == manager_lines(first, result) + manager_lines(second, result),
    decreases second.len(),
{
    if second.len() == 0 {
        assert(first + second =~= first);
        assert(manager_lines(first, result) + manager_lines(second, result) =~= manager_lines(first, result));
    } else {
        let rest = second.drop_last();
        let last = second.last();
        lemma_lines_of_groups_concatenate(first, rest, result);
        assert(first + second =~= (first + rest).push(last));
        assert(second =~= rest.push(last));
        lemma_added_reporter_adds_its_line(first + rest, last, result);
        lemma_added_reporter_adds_its_line(rest, last, result);
        let tail: Seq<Seq<char>> = match last.line_spec(result) {
            Some(line) => seq![line],
            None => Seq::empty(),
        };
        assert(manager_lines(first, result) + manager_lines(rest, result) + tail =~= manager_lines(first, result) + (
        manager_lines(rest, result) + tail));
    }
}

} // verus!
