//! The query driver's decisions: which catalog entry runs next, and what a
//! failure does to the run.

use vstd::prelude::*;
use vstd::string::*;

verus! {

/// One entry of the catalog: where the result goes, the query, and a
/// description for diagnostics.
#[derive(Clone, Debug, PartialEq, Eq)]
pub struct QuerySpec {
    pub file_name: String,
    pub sql: String,
    pub description: String,
}

/// What the engine or the export reported back to the driver.
#[derive(Clone, Copy, Debug, PartialEq, Eq, Structural)]
pub enum Event {
    /// The source dataset is registered; queries can run.
    SourceRegistered,
    /// The source dataset could not be registered.
    SourceRegistrationFailed,
    /// The engine rejected or failed the current query.
    QueryFailed,
    /// The current query ran, but its export failed.
    ExportFailed,
    /// The current query's file is written.
    Exported,
}

/// What the driver does next.
#[derive(Clone, Copy, Debug, PartialEq, Eq, Structural)]
pub enum Action {
    /// Stop the whole run with an error.
    Abort,
    /// Run the catalog entry at this position.
    Run(usize),
    /// Every entry has been processed.
    Finish,
}

/// A run over a catalog of `total` entries, of which `done` are processed
/// and `failed` ended in a diagnostic.
#[derive(Clone, Copy, Debug, PartialEq, Eq, Structural)]
pub struct Driver {
    pub total: usize,
    pub done: usize,
    pub failed: usize,
}

/// The action that follows when `done` of `total` entries are processed.
pub open spec fn next_action(total: usize, done: usize) -> Action {
    if done < total {
        Action::Run(done)
    } else {
        Action::Finish
    }
}

impl Driver {
    /// No more entries are processed than the catalog holds, and no more
    /// have failed than are processed.
    pub open spec fn wf(&self) -> bool {
        self.failed <= self.done <= self.total
    }

    /// A run that has processed nothing yet.
    pub fn new(total: usize) -> (driver: Driver)
        ensures
            driver == (Driver { total, done: 0, failed: 0 }),
            driver.wf(),
    {
        Driver { total, done: 0, failed: 0 }
    }

    /// Takes in one event and says what to do next.
    ///
    /// A failed registration aborts the run and changes nothing. A
    /// successful one starts, or resumes, at the first unprocessed entry.
    /// Each per-query event marks the current entry processed, counts it as
    /// failed unless it was exported, and moves on to the next entry: a
    /// failure never ends the run. A per-query event after the last entry
    /// changes nothing.
    pub fn handle(&mut self, event: Event) -> (action: Action)
        requires
            old(self).wf(),
        ensures
            final(self).wf(),
            final(self).total == old(self).total,
            match event {
                Event::SourceRegistrationFailed => action == Action::Abort && *final(self) == *old(
                    self,
                ),
                Event::SourceRegistered => action == next_action(old(self).total, old(self).done)
                    && *final(self) == *old(self),
                Event::Exported => if old(self).done < old(self).total {
                    &&& final(self).done == old(self).done + 1
                    &&& final(self).failed == old(self).failed
                    &&& action == next_action(final(self).total, final(self).done)
                } else {
                    action == Action::Finish && *final(self) == *old(self)
                },
                Event::QueryFailed | Event::ExportFailed => if old(self).done < old(self).total {
                    &&& final(self).done == old(self).done + 1
                    &&& final(self).failed == old(self).failed + 1
                    &&& action == next_action(final(self).total, final(self).done)
                } else {
                    action == Action::Finish && *final(self) == *old(self)
                },
            },
    {
        match event {
            Event::SourceRegistrationFailed => {
                return Action::Abort;
            },
            Event::SourceRegistered => {},
            Event::Exported => {
                if self.done < self.total {
                    self.done = self.done + 1;
                }
            },
            Event::QueryFailed | Event::ExportFailed => {
                if self.done < self.total {
                    self.done = self.done + 1;
                    self.failed = self.failed + 1;
                }
            },
        }
        if self.done < self.total {
            Action::Run(self.done)
        } else {
            Action::Finish
        }
    }
}

/// The text of the diagnostic for a query that did not produce its file.
pub open spec fn failure_text(description: Seq<char>, cause: Seq<char>) -> Seq<char> {
    "Failed to write CSV for "@ + description + ": "@ + cause
}

/// The diagnostic for a query that did not produce its file.
pub fn failure_report(description: &str, cause: &str) -> (text: String)
    ensures
        text@ == failure_text(description@, cause@),
{
    String::from_str("Failed to write CSV for ").concat(description).concat(": ").concat(cause)
}

} // verus!
