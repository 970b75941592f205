//! What it means when the registers of a stopped process cannot be read.

use crate::errno::{Errno, ESRCH};
use crate::syscall::{is_exit_call, sysno_is_exit};
use vstd::prelude::*;

verus! {

/// Why a register read failed, as far as the tracer can tell.
#[derive(Clone, Copy, Debug, PartialEq, Eq)]
pub enum RegisterFailure {
    /// The process was in an exit call: it is gone because it said so.
    ExitedNormally,
    /// The process vanished between its stop and the read.
    Disappeared,
    /// Anything else.
    Unclassified,
}

/// The class of a failed register read, given the error it failed with and
/// the last system call known of the process, if any. An exit call makes
/// any failure a normal end; otherwise "no such process" means the process
/// disappeared, and every other error is unclassified.
pub open spec fn register_failure(errno: Errno, sysno: Option<u64>) -> RegisterFailure {
    if sysno is Some && is_exit_call(sysno->0) {
        RegisterFailure::ExitedNormally
    } else if errno.code == ESRCH {
        RegisterFailure::Disappeared
    } else {
        RegisterFailure::Unclassified
    }
}

/// Computes `register_failure`.
pub fn classify_register_failure(errno: Errno, sysno: Option<u64>) -> (kind: RegisterFailure)
    ensures
        kind == register_failure(errno, sysno),
{
    let exited: bool = match sysno {
        Some(number) => sysno_is_exit(number),
        None => false,
    };
    if exited {
        RegisterFailure::ExitedNormally
    } else if errno.code == ESRCH {
        RegisterFailure::Disappeared
    } else {
        RegisterFailure::Unclassified
    }
}

impl RegisterFailure {
    /// The status the tracer ends with after such a failure: 0 where the
    /// process ended or vanished, 1 where the failure is unclassified.
    pub open spec fn status(self) -> i32 {
        match self {
            RegisterFailure::ExitedNormally => 0,
            RegisterFailure::Disappeared => 0,
            RegisterFailure::Unclassified => 1,
        }
    }

    /// Computes `status`.
    pub fn exit_status(&self) -> (status: i32)
        ensures
            status == self.status(),
    {
        match self {
            RegisterFailure::ExitedNormally => 0,
            RegisterFailure::Disappeared => 0,
            RegisterFailure::Unclassified => 1,
        }
    }
}

} // verus!
