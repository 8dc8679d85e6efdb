//! The sync guard: one repository synchronisation at a time, and the decisions
//! taken between the version-control operations of one attempt.
use vstd::prelude::*;
use crate::notify::{Notice, Severity};
use crate::text::{trim_text, trimmed};

verus! {

/// How a synchronisation attempt ended.
#[derive(Debug)]
pub enum SyncOutcome {
    /// Another attempt held the guard; nothing was done.
    Skipped,
    /// The local head already equals the remote branch tip.
    NoChange,
    /// New changes were pulled.
    Pulled,
    /// A version-control operation failed, for the reason given.
    Failed(String),
}

/// A version-control operation that the caller is to perform next.
#[derive(Clone, Copy, Debug, PartialEq, Eq, Structural)]
pub enum SyncStage {
    /// Fetch the remote branch.
    Fetch,
    /// Read the commit ids of the local head and of the remote branch tip.
    ReadHeads,
    /// Pull the remote branch.
    Pull,
}

/// What the caller is to do next in an attempt.
#[derive(Debug)]
pub enum SyncStep {
    Run(SyncStage),
    Finish(SyncOutcome),
}

pub open spec fn fetch_failed_text(stderr: Seq<char>) -> Seq<char> {
    "Git fetch failed: "@ + stderr
}

pub open spec fn heads_failed_text() -> Seq<char> {
    "Failed to get commit hashes"@
}

pub open spec fn pull_failed_text(stderr: Seq<char>) -> Seq<char> {
    "Git pull failed: "@ + stderr
}

pub open spec fn no_change_text(branch: Seq<char>) -> Seq<char> {
    "No new changes on "@ + branch
}

pub open spec fn pulled_text(branch: Seq<char>) -> Seq<char> {
    "Successfully pulled new changes from "@ + branch
}

/// Whether a step runs the given operation.
pub open spec fn runs(r: SyncStep, stage: SyncStage) -> bool {
    r matches SyncStep::Run(s) && s == stage
}

/// Whether a step ends the attempt as a failure with the given reason.
pub open spec fn fails_with(r: SyncStep, reason: Seq<char>) -> bool {
    r matches SyncStep::Finish(SyncOutcome::Failed(e)) && e@ == reason
}

/// The flag "a synchronisation is in progress". An attempt holds it from
/// `begin` until the step that finishes the attempt, on every path.
pub struct SyncGuard {
    in_progress: bool,
}

impl View for SyncGuard {
    type V = bool;

    closed spec fn view(&self) -> bool {
        self.in_progress
    }
}

impl SyncGuard {
    /// A guard that no attempt holds.
    pub fn new() -> (r: SyncGuard)
        ensures
            !r@,
    {
        SyncGuard { in_progress: false }
    }

    /// Whether an attempt holds the guard.
    pub fn is_syncing(&self) -> (r: bool)
        ensures
            r == self@,
    {
        self.in_progress
    }

    /// Starts an attempt. While another attempt holds the guard this is skipped:
    /// no operation is asked for and the guard is left as it is. Otherwise the
    /// guard is taken and the first operation is a fetch.
    pub fn begin(&mut self) -> (r: SyncStep)
        ensures
            old(self)@ ==> (r matches SyncStep::Finish(SyncOutcome::Skipped)) && final(self)@,
            !old(self)@ ==> runs(r, SyncStage::Fetch) && final(self)@,
    {
        if self.in_progress {
            SyncStep::Finish(SyncOutcome::Skipped)
        } else {
            self.in_progress = true;
            SyncStep::Run(SyncStage::Fetch)
        }
    }

    /// Takes the result of the fetch: on success the heads are read next; on
    /// failure the attempt ends, the guard released.
    pub fn fetched(&mut self, ok: bool, stderr: &str) -> (r: SyncStep)
        ensures
            ok ==> runs(r, SyncStage::ReadHeads) && final(self)@ == old(self)@,
            !ok ==> fails_with(r, fetch_failed_text(stderr@)) && !final(self)@,
    {
        if ok {
            SyncStep::Run(SyncStage::ReadHeads)
        } else {
            self.in_progress = false;
            SyncStep::Finish(SyncOutcome::Failed(String::from_str("Git fetch failed: ").concat(stderr)))
        }
    }

    /// Takes the output of reading the local head and the remote tip (`None` where
    /// reading failed). Ids equal once trimmed end the attempt with no change;
    /// different ids ask for a pull; a failed read ends the attempt as a failure.
    pub fn heads_read(&mut self, local: Option<&str>, remote: Option<&str>) -> (r: SyncStep)
        ensures
            (local is None || remote is None) ==> fails_with(r, heads_failed_text()) && !final(self)@,
            (local matches Some(l) && remote matches Some(m) && trimmed(l@) == trimmed(m@))
                ==> (r matches SyncStep::Finish(SyncOutcome::NoChange)) && !final(self)@,
            (local matches Some(l) && remote matches Some(m) && trimmed(l@) != trimmed(m@))
                ==> runs(r, SyncStage::Pull) && final(self)@ == old(self)@,
    {
        match (local, remote) {
            (Some(l), Some(m)) => {
                let lt = trim_text(l);
                let mt = trim_text(m);
                if lt == mt {
                    self.in_progress = false;
                    SyncStep::Finish(SyncOutcome::NoChange)
                } else {
                    SyncStep::Run(SyncStage::Pull)
                }
            },
            _ => {
                self.in_progress = false;
                SyncStep::Finish(SyncOutcome::Failed(String::from_str("Failed to get commit hashes")))
            },
        }
    }

    /// Takes the result of the pull; the attempt ends either way, the guard released.
    pub fn pulled(&mut self, ok: bool, stderr: &str) -> (r: SyncStep)
        ensures
            ok ==> (r matches SyncStep::Finish(SyncOutcome::Pulled)),
            !ok ==> fails_with(r, pull_failed_text(stderr@)),
            !final(self)@,
    {
        self.in_progress = false;
        if ok {
            SyncStep::Finish(SyncOutcome::Pulled)
        } else {
            SyncStep::Finish(SyncOutcome::Failed(String::from_str("Git pull failed: ").concat(stderr)))
        }
    }
}

/// The notice an outcome emits: none for a skipped attempt, INFO for no change,
/// SUCCESS for a pull, ERROR with the reason for a failure.
pub fn sync_notice(outcome: &SyncOutcome, branch: &str) -> (r: Option<Notice>)
    ensures
        (outcome is Skipped) <==> r is None,
        outcome is NoChange ==> (r matches Some(n) && n.severity == Severity::Info
            && n.message@ == no_change_text(branch@)),
        outcome is Pulled ==> (r matches Some(n) && n.severity == Severity::Success
            && n.message@ == pulled_text(branch@)),
        (outcome matches SyncOutcome::Failed(e) ==> (r matches Some(n) && n.severity == Severity::Error
            && n.message@ == e@)),
{
    match outcome {
        SyncOutcome::Skipped => None,
        SyncOutcome::NoChange => Some(
            Notice::new(Severity::Info, String::from_str("No new changes on ").concat(branch)),
        ),
        SyncOutcome::Pulled => Some(
            Notice::new(Severity::Success, String::from_str("Successfully pulled new changes from ").concat(branch)),
        ),
        SyncOutcome::Failed(e) => Some(Notice::new(Severity::Error, e.clone())),
    }
}

} // verus!
