//! The extractor's decisions: where an archive is unpacked, and whether a run unpacks it,
//! skips it, or stops scheduling because its limit is reached.
use vstd::prelude::*;
use crate::naming::{strip_archive_suffix, strip_archive_suffix_spec};

verus! {

/// The directory, relative to the working directory, that an archive of the given file
/// name is unpacked into: `sources/` and the file name without its archive extension.
pub fn extract_dir(file_name: &str) -> (r: String)
    ensures
        r@ == "sources/"@ + strip_archive_suffix_spec(file_name@),
{
    let name = strip_archive_suffix(file_name);
    String::from_str("sources/").concat(name.as_str())
}

/// What is done with one archive found under `crates/`.
#[derive(PartialEq, Eq, Structural, Clone, Copy, Debug)]
pub enum ExtractDecision {
    /// The limit of new extractions is reached: nothing more is scheduled in this run.
    Stop,
    /// Its source tree exists and only missing ones are wanted.
    Skip,
    /// It is unpacked.
    Extract,
}

pub open spec fn extract_decision_spec(
    limit: Option<usize>,
    scheduled: nat,
    update_only: bool,
    target_exists: bool,
) -> ExtractDecision {
    if limit is Some && scheduled >= limit->0 {
        ExtractDecision::Stop
    } else if update_only && target_exists {
        ExtractDecision::Skip
    } else {
        ExtractDecision::Extract
    }
}

/// The state of one extraction run: its options, and how many archives it has scheduled.
pub struct ExtractRun {
    limit: Option<usize>,
    update_only: bool,
    scheduled: usize,
}

impl ExtractRun {
    /// Well-formed: never more archives scheduled than the limit allows.
    pub closed spec fn wf(self) -> bool {
        self.limit is Some ==> self.scheduled <= self.limit->0
    }

    /// The cap on new extractions, if any.
    pub closed spec fn limit_spec(self) -> Option<usize> {
        self.limit
    }

    /// Whether archives whose source tree exists are skipped.
    pub closed spec fn update_only_spec(self) -> bool {
        self.update_only
    }

    /// How many archives this run has scheduled for extraction.
    pub closed spec fn scheduled_spec(self) -> nat {
        self.scheduled as nat
    }

    /// A run with the given cap on new extractions and mode, nothing scheduled yet.
    pub fn new(limit: Option<usize>, update_only: bool) -> (r: ExtractRun)
        ensures
            r.wf(),
            r.limit_spec() == limit,
            r.update_only_spec() == update_only,
            r.scheduled_spec() == 0,
    {
        ExtractRun { limit, update_only, scheduled: 0 }
    }

    /// Decides what is done with the next archive, given whether its source tree exists,
    /// and counts it when it is scheduled (without a cap the count stops at `usize::MAX`).
    /// The cap bounds what is scheduled, so it is exact: once it is reached, every later
    /// archive gets `Stop`.
    pub fn decide(&mut self, target_exists: bool) -> (r: ExtractDecision)
        requires
            old(self).wf(),
        ensures
            final(self).wf(),
            r == extract_decision_spec(
                old(self).limit_spec(),
                old(self).scheduled_spec(),
                old(self).update_only_spec(),
                target_exists,
            ),
            final(self).limit_spec() == old(self).limit_spec(),
            final(self).update_only_spec() == old(self).update_only_spec(),
            final(self).scheduled_spec() == if r == ExtractDecision::Extract
                && old(self).scheduled_spec() < usize::MAX {
                old(self).scheduled_spec() + 1
            } else {
                old(self).scheduled_spec()
            },
    {
        let stop = match self.limit {
            Some(l) => self.scheduled >= l,
            None => self.scheduled == usize::MAX,
        };
        if stop && self.limit.is_some() {
            ExtractDecision::Stop
        } else if self.update_only && target_exists {
            ExtractDecision::Skip
        } else if stop {
            // Unlimited, and more archives than a counter can hold: the count saturates.
            ExtractDecision::Extract
        } else {
            self.scheduled = self.scheduled + 1;
            ExtractDecision::Extract
        }
    }

    /// How many archives this run has scheduled.
    pub fn scheduled(&self) -> (r: usize)
        ensures
            r == self.scheduled_spec(),
    {
        self.scheduled
    }
}

/// A run never schedules more archives than its cap.
pub proof fn lemma_extract_cap(run: ExtractRun)
    requires
        run.wf(),
    ensures
        run.limit_spec() is Some ==> run.scheduled_spec() <= run.limit_spec()->0,
{
}

} // verus!
