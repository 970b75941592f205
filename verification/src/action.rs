//! What a session asks its caller to do, and how a session can end.

use crate::errno::Errno;
use crate::failure::RegisterFailure;
use crate::syscall::SyscallEvent;
use vstd::prelude::*;

verus! {

/// The stop at which something happened: a call's entry or its exit.
#[derive(Clone, Copy, Debug, PartialEq, Eq)]
pub enum StopSide {
    Enter,
    Exit,
}

/// One thing for the caller to do. A session answers each event with a list
/// of these, to be carried out in order. A session that is to end with a
/// summary asks for nothing to be printed of the calls as they come.
#[derive(Clone, Copy, Debug, PartialEq, Eq)]
pub enum Action {
    /// Save what must be read from the process before the call runs.
    CapturePreCall { pid: i32 },
    /// Read the program break of the process and hand it to the session.
    CaptureBreak { pid: i32 },
    /// Save what can only be read from the process after the call.
    CapturePostCall { pid: i32 },
    /// Take the time: the next exit stop reports what has elapsed since.
    StartClock,
    /// Print the call as it stands, in the state the event is in.
    Render { event: SyscallEvent },
    /// Print that the process has made an exit call.
    AnnounceExit { pid: i32 },
    /// Print that the call printed last was left under way.
    AnnouncePause,
    /// Let the process run to its next stop.
    Resume { pid: i32 },
    /// Report that the registers could not be read. `sysno` is the system
    /// call that the process was last known to have entered.
    ReportRegisterFailure { kind: RegisterFailure, side: StopSide, sysno: Option<u64>, errno: Errno },
    /// Report that the tracer could not resume or wait for a process.
    ReportTracerFailure { errno: Errno, sysno: Option<u64> },
    /// Report that the program break could not be read.
    ReportBreakFailure { pid: i32 },
    /// Print the summary of what was recorded.
    PrintSummary,
}

/// Why a session is over.
#[derive(Clone, Copy, Debug, PartialEq, Eq)]
pub enum Outcome {
    /// The traced process made an exit call.
    Exited,
    /// No traced process is left.
    Drained,
    /// The registers of a process could not be read.
    RegistersUnavailable(RegisterFailure),
    /// The program break of a process could not be read.
    BreakUnavailable,
    /// Resuming a process, or waiting for one, failed.
    TracerFailed,
}

impl Outcome {
    /// The status the tracer ends with: 0 where tracing ran its course or
    /// the process went away, 1 where the tracer itself was let down.
    pub open spec fn status(self) -> i32 {
        match self {
            Outcome::Exited => 0,
            Outcome::Drained => 0,
            Outcome::RegistersUnavailable(kind) => kind.status(),
            Outcome::BreakUnavailable => 1,
            Outcome::TracerFailed => 1,
        }
    }

    /// Computes `status`.
    pub fn exit_status(&self) -> (status: i32)
        ensures
            status == self.status(),
    {
        match self {
            Outcome::Exited => 0,
            Outcome::Drained => 0,
            Outcome::RegistersUnavailable(kind) => kind.exit_status(),
            Outcome::BreakUnavailable => 1,
            Outcome::TracerFailed => 1,
        }
    }
}

/// What is printed of the calls as they come: `printing`, or nothing where
/// a summary is wanted in its place.
pub open spec fn unless_summary(summary: bool, printing: Seq<Action>) -> Seq<Action> {
    if summary {
        seq![]
    } else {
        printing
    }
}

/// What ends every session: the summary, if one was asked for.
pub open spec fn closing_actions(summary: bool) -> Seq<Action> {
    if summary {
        seq![Action::PrintSummary]
    } else {
        seq![]
    }
}

} // verus!
