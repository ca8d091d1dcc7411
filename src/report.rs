//! The tally of one stage: how many items succeeded, failed or were skipped. A failed
//! item is counted and the stage goes on.
use vstd::prelude::*;

verus! {

/// How one item of a stage ended.
#[derive(PartialEq, Eq, Structural, Clone, Copy, Debug)]
pub enum ItemOutcome {
    Succeeded,
    Failed,
    Skipped,
}

/// Counts of the items of one stage, by outcome.
pub struct StageReport {
    pub succeeded: u64,
    pub failed: u64,
    pub skipped: u64,
}

/// Adds one to a count, which stays at `u64::MAX` once there.
pub open spec fn bump(n: u64) -> u64 {
    if n < u64::MAX {
        (n + 1) as u64
    } else {
        n
    }
}

impl StageReport {
    /// A report with nothing counted.
    pub fn new() -> (r: StageReport)
        ensures
            r.succeeded == 0,
            r.failed == 0,
            r.skipped == 0,
    {
        StageReport { succeeded: 0, failed: 0, skipped: 0 }
    }

    /// Counts one item under its outcome; the other counts are kept.
    pub fn record(&mut self, outcome: ItemOutcome)
        ensures
            final(self).succeeded == if outcome == ItemOutcome::Succeeded {
                bump(old(self).succeeded)
            } else {
                old(self).succeeded
            },
            final(self).failed == if outcome == ItemOutcome::Failed {
                bump(old(self).failed)
            } else {
                old(self).failed
            },
            final(self).skipped == if outcome == ItemOutcome::Skipped {
                bump(old(self).skipped)
            } else {
                old(self).skipped
            },
    {
        match outcome {
            ItemOutcome::Succeeded => {
                if self.succeeded < u64::MAX {
                    self.succeeded = self.succeeded + 1;
                }
            },
            ItemOutcome::Failed => {
                if self.failed < u64::MAX {
                    self.failed = self.failed + 1;
                }
            },
            ItemOutcome::Skipped => {
                if self.skipped < u64::MAX {
                    self.skipped = self.skipped + 1;
                }
            },
        }
    }
}

} // verus!
