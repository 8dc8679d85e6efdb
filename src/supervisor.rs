//! The process slot: at most one external command tracked at a time, and a new
//! run supersedes the one in flight.
use vstd::prelude::*;
use crate::notify::{Notice, Severity};
use crate::text::{seconds_string, seconds_text};

verus! {

/// The slot's state. A handle is the operating system's id of a spawned process.
#[derive(Clone, Copy, Debug, PartialEq, Eq, Structural)]
pub enum SlotState {
    /// No process is tracked.
    Idle,
    /// The process with this handle is live, or exited and not yet collected.
    Running(u32),
    /// The process with this handle was told to stop; a new one is about to be spawned.
    Terminating(u32),
}

/// The state after a run is requested, and the handle to signal, if any.
pub open spec fn begin_run_spec(s: SlotState) -> (SlotState, Option<u32>) {
    match s {
        SlotState::Idle => (SlotState::Idle, None),
        SlotState::Running(h) => (SlotState::Terminating(h), Some(h)),
        SlotState::Terminating(h) => (SlotState::Terminating(h), Some(h)),
    }
}

/// The state after the process of a run has been spawned.
pub open spec fn spawned_spec(s: SlotState, handle: u32) -> SlotState {
    SlotState::Running(handle)
}

/// The state after the process `handle` has exited and been collected.
pub open spec fn finished_spec(s: SlotState, handle: u32) -> SlotState {
    if s == SlotState::Running(handle) { SlotState::Idle } else { s }
}

/// The state after a spawn failed.
pub open spec fn spawn_failed_spec(s: SlotState) -> SlotState {
    match s {
        SlotState::Running(h) => SlotState::Running(h),
        _ => SlotState::Idle,
    }
}

/// Owns the handle of at most one external process. Requesting a run, signalling
/// the handle handed back, and recording the new process form one step under
/// the caller's lock; waiting for the process happens outside it.
pub struct ProcessSlot {
    state: SlotState,
}

impl View for ProcessSlot {
    type V = SlotState;

    closed spec fn view(&self) -> SlotState {
        self.state
    }
}

impl ProcessSlot {
    /// A slot that tracks no process.
    pub fn new() -> (r: ProcessSlot)
        ensures
            r@ == SlotState::Idle,
    {
        ProcessSlot { state: SlotState::Idle }
    }

    /// The slot's state.
    pub fn state(&self) -> (r: SlotState)
        ensures
            r == self@,
    {
        self.state
    }

    /// Requests a new run. Returns the handle of the process that must be sent
    /// a termination signal before the new one is spawned; that handle is then
    /// no longer the current one.
    pub fn begin_run(&mut self) -> (r: Option<u32>)
        ensures
            (final(self)@, r) == begin_run_spec(old(self)@),
    {
        match self.state {
            SlotState::Idle => None,
            SlotState::Running(h) => {
                self.state = SlotState::Terminating(h);
                Some(h)
            },
            SlotState::Terminating(h) => Some(h),
        }
    }

    /// Records the newly spawned process as the current one. A run must have
    /// been requested first, so no live handle is overwritten unsignalled.
    pub fn spawned(&mut self, handle: u32)
        requires
            !(old(self)@ is Running),
        ensures
            final(self)@ == spawned_spec(old(self)@, handle),
    {
        self.state = SlotState::Running(handle);
    }

    /// Records that spawning the requested run failed: the slot is idle, unless
    /// another run has meanwhile become the current one.
    pub fn spawn_failed(&mut self)
        ensures
            final(self)@ == spawn_failed_spec(old(self)@),
    {
        match self.state {
            SlotState::Running(_) => {},
            _ => {
                self.state = SlotState::Idle;
            },
        }
    }

    /// Records that process `handle` has exited and was collected. Returns whether
    /// it was the current one; a superseded process leaves the slot as it is.
    pub fn finished(&mut self, handle: u32) -> (r: bool)
        ensures
            r == (old(self)@ == SlotState::Running(handle)),
            final(self)@ == finished_spec(old(self)@, handle),
    {
        match self.state {
            SlotState::Running(h) => {
                if h == handle {
                    self.state = SlotState::Idle;
                    true
                } else {
                    false
                }
            },
            _ => false,
        }
    }
}

/// Supersession: whatever the slot held, once a run is requested and its process
/// spawned, the new process is the only one tracked, and a process that was live
/// before was handed out to be signalled first.
pub proof fn lemma_run_supersedes(s: SlotState, handle: u32)
    ensures
        !(begin_run_spec(s).0 is Running),
        spawned_spec(begin_run_spec(s).0, handle) == SlotState::Running(handle),
        s is Running ==> begin_run_spec(s).1 == Some(s->Running_0),
        s is Idle ==> begin_run_spec(s).1 is None,
{
}

/// How a run ended.
pub enum RunOutcome {
    /// The process exited with success status.
    Success { duration_ms: u64, stdout: String },
    /// The process exited otherwise, or could not be spawned.
    Failed { stderr: String },
}

impl RunOutcome {
    /// The outcome of a process that exited: success status gives its duration
    /// and standard output, any other its standard error.
    pub fn from_exit(success: bool, duration_ms: u64, stdout: String, stderr: String) -> (r: RunOutcome)
        ensures
            success ==> (r matches RunOutcome::Success { duration_ms: d, stdout: o }
                && d == duration_ms && o@ == stdout@),
            !success ==> (r matches RunOutcome::Failed { stderr: e } && e@ == stderr@),
    {
        if success {
            RunOutcome::Success { duration_ms, stdout }
        } else {
            RunOutcome::Failed { stderr }
        }
    }

    /// The outcome of a command whose process could not be spawned: a failure
    /// carrying the error's text.
    pub fn spawn_error(error: String) -> (r: RunOutcome)
        ensures
            r matches RunOutcome::Failed { stderr: e } && e@ == error@,
    {
        RunOutcome::Failed { stderr: error }
    }

    pub fn is_success(&self) -> (r: bool)
        ensures
            r == self is Success,
    {
        match self {
            RunOutcome::Success { .. } => true,
            RunOutcome::Failed { .. } => false,
        }
    }
}

pub open spec fn cancel_text() -> Seq<char> {
    "Previous command has been cancelled"@
}

pub open spec fn start_text(command: Seq<char>) -> Seq<char> {
    "Starting command execution: "@ + command
}

pub open spec fn success_text(command: Seq<char>, duration_ms: nat, stdout: Seq<char>) -> Seq<char> {
    "Command executed successfully: "@ + command + "\nDuration: "@ + seconds_text(duration_ms)
        + " seconds\nOutput:\n"@ + stdout
}

pub open spec fn failure_text(command: Seq<char>, stderr: Seq<char>) -> Seq<char> {
    "Command execution failed: "@ + command + "\nError:\n"@ + stderr
}

/// The notice that a running command was superseded.
pub fn cancel_notice() -> (r: Notice)
    ensures
        r.severity == Severity::Info,
        r.message@ == cancel_text(),
{
    Notice::new(Severity::Info, String::from_str("Previous command has been cancelled"))
}

/// The notice that `command` is about to be spawned.
pub fn start_notice(command: &str) -> (r: Notice)
    ensures
        r.severity == Severity::Info,
        r.message@ == start_text(command@),
{
    Notice::new(Severity::Info, String::from_str("Starting command execution: ").concat(command))
}

/// The notice reporting how a run of `command` ended: SUCCESS with its duration and
/// output, or ERROR with the command and its error output.
pub fn run_notice(command: &str, outcome: &RunOutcome) -> (r: Notice)
    ensures
        (outcome matches RunOutcome::Success { duration_ms, stdout } ==> r.severity == Severity::Success
            && r.message@ == success_text(command@, *duration_ms as nat, stdout@)),
        (outcome matches RunOutcome::Failed { stderr } ==> r.severity == Severity::Error
            && r.message@ == failure_text(command@, stderr@)),
{
    match outcome {
        RunOutcome::Success { duration_ms, stdout } => {
            let secs = seconds_string(*duration_ms);
            let m = String::from_str("Command executed successfully: ").concat(command)
                .concat("\nDuration: ").concat(secs.as_str()).concat(" seconds\nOutput:\n")
                .concat(stdout.as_str());
            Notice::new(Severity::Success, m)
        },
        RunOutcome::Failed { stderr } => {
            let m = String::from_str("Command execution failed: ").concat(command)
                .concat("\nError:\n").concat(stderr.as_str());
            Notice::new(Severity::Error, m)
        },
    }
}

} // verus!
