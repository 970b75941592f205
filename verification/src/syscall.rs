//! System calls as the engine sees them: a number, the process that made
//! the call, and how far the call has come.

use crate::errno::{errno_from_raw, errno_of_lookup, negated_return, Errno};
use crate::text::{decimal, decimal_string};
use vstd::prelude::*;
use vstd::string::*;

verus! {

/// The number of `mmap` on x86-64.
pub const SYS_MMAP: u64 = 9;

/// The number of `munmap` on x86-64.
pub const SYS_MUNMAP: u64 = 11;

/// The number of `brk` on x86-64.
pub const SYS_BRK: u64 = 12;

/// The number of `mremap` on x86-64.
pub const SYS_MREMAP: u64 = 25;

/// The number of `exit` on x86-64.
pub const SYS_EXIT: u64 = 60;

/// The number of `exit_group` on x86-64.
pub const SYS_EXIT_GROUP: u64 = 231;

/// Whether the call ends the calling thread or its whole process.
pub open spec fn is_exit_call(sysno: u64) -> bool {
    sysno == SYS_EXIT || sysno == SYS_EXIT_GROUP
}

/// Whether the call can move the program break or map and unmap memory.
pub open spec fn is_memory_call(sysno: u64) -> bool {
    sysno == SYS_BRK || sysno == SYS_MMAP || sysno == SYS_MUNMAP || sysno == SYS_MREMAP
}

/// Computes `is_exit_call`.
pub fn sysno_is_exit(sysno: u64) -> (exits: bool)
    ensures
        exits == is_exit_call(sysno),
{
    sysno == SYS_EXIT || sysno == SYS_EXIT_GROUP
}

/// Computes `is_memory_call`.
pub fn sysno_is_memory(sysno: u64) -> (memory: bool)
    ensures
        memory == is_memory_call(sysno),
{
    sysno == SYS_BRK || sysno == SYS_MMAP || sysno == SYS_MUNMAP || sysno == SYS_MREMAP
}

/// The two registers of a stopped process that the engine reads: the
/// number of the call it is in, and the call's return value.
#[derive(Clone, Copy, Debug, PartialEq, Eq)]
pub struct Registers {
    pub orig_rax: u64,
    pub rax: u64,
}

/// The outcome of reading a stopped process's registers.
#[derive(Clone, Copy, Debug, PartialEq, Eq)]
pub enum RegisterRead {
    Read(Registers),
    Failed(Errno),
}

/// Which of a call's two stops the process is heading for.
#[derive(Clone, Copy, Debug, PartialEq, Eq)]
pub enum SyscallState {
    Entering,
    Exiting,
}

/// One system call of one process.
#[derive(Clone, Copy, Debug, PartialEq, Eq)]
pub struct SyscallEvent {
    pub sysno: u64,
    pub pid: i32,
    pub state: SyscallState,
    /// Set once another process's stop was handled while this call was
    /// still under way.
    pub paused: bool,
    /// The return register, known from the exit stop on.
    pub result: Option<u64>,
    /// The error the return register stands for, if any.
    pub errno: Option<Errno>,
}

impl SyscallEvent {
    /// The event of a call that was just entered.
    pub open spec fn entered(sysno: u64, pid: i32) -> SyscallEvent {
        SyscallEvent {
            sysno,
            pid,
            state: SyscallState::Entering,
            paused: false,
            result: None,
            errno: None,
        }
    }

    /// The event once the call has returned `rax`, decoded as `errno`.
    pub open spec fn returned(self, rax: u64, errno: Option<Errno>) -> SyscallEvent {
        SyscallEvent { result: Some(rax), errno, ..self }
    }

    /// The event in another state.
    pub open spec fn in_state(self, state: SyscallState) -> SyscallEvent {
        SyscallEvent { state, ..self }
    }

    /// The event once focus has moved away from it.
    pub open spec fn set_paused(self) -> SyscallEvent {
        SyscallEvent { paused: true, ..self }
    }

    /// Starts the event of a call that process `pid` is entering.
    pub fn build(registers: &Registers, pid: i32) -> (event: SyscallEvent)
        ensures
            event == SyscallEvent::entered(registers.orig_rax, pid),
    {
        SyscallEvent {
            sysno: registers.orig_rax,
            pid,
            state: SyscallState::Entering,
            paused: false,
            result: None,
            errno: None,
        }
    }

    /// Whether the call ends the calling thread or its whole process.
    pub fn is_exiting(&self) -> (exits: bool)
        ensures
            exits == is_exit_call(self.sysno),
    {
        sysno_is_exit(self.sysno)
    }

    /// Whether the call can move the program break or map and unmap
    /// memory.
    pub fn is_mem_alloc_dealloc(&self) -> (memory: bool)
        ensures
            memory == is_memory_call(self.sysno),
    {
        sysno_is_memory(self.sysno)
    }

    /// Whether the call is known to have failed.
    pub fn failed(&self) -> (failed: bool)
        ensures
            failed == (self.errno is Some),
    {
        self.errno.is_some()
    }
}

/// The error that a return register stands for.
pub open spec fn decoded_errno(rax: u64) -> Option<Errno> {
    errno_of_lookup(rax, errno_from_raw(negated_return(rax)))
}

/// The name that `syscalls::Sysno` has for a system-call number, or `None`
/// where it has no system call of that number.
pub uninterp spec fn syscall_name(sysno: u64) -> Option<Seq<char>>;

/// Looks a number up with `syscalls::Sysno::new` and returns the text of
/// `syscalls::Sysno::name` for the system call found; which numbers are
/// found, and what their names are, is left to `syscall_name`.
#[verifier::external_body]
fn lookup_syscall_name(sysno: u64) -> (name: Option<String>)
    ensures
        match name {
            Some(text) => syscall_name(sysno) == Some(text@),
            None => syscall_name(sysno) is None,
        },
{
    let id: usize = match usize::try_from(sysno) {
        Ok(id) => id,
        Err(_) => return None,
    };
    match syscalls::Sysno::new(id) {
        Some(known) => Some(known.name().to_string()),
        None => None,
    }
}

/// What a system call is called in a summary, given the name that was
/// found for it: that name, or `syscall_` and the number where there is
/// none.
pub open spec fn label_of(sysno: u64, name: Option<Seq<char>>) -> Seq<char> {
    match name {
        Some(known) => known,
        None => "syscall_"@ + decimal(sysno as nat),
    }
}

/// What a system call is called in a summary.
pub open spec fn syscall_label(sysno: u64) -> Seq<char> {
    label_of(sysno, syscall_name(sysno))
}

/// Computes `label_of`.
pub fn label_from_name(sysno: u64, name: Option<String>) -> (label: String)
    ensures
        label@ == label_of(
            sysno,
            match name {
                Some(text) => Some(text@),
                None => None,
            },
        ),
{
    match name {
        Some(known) => known,
        None => {
            let mut label: String = String::from_str("syscall_");
            let number: String = decimal_string(sysno as u128);
            label.append(number.as_str());
            label
        },
    }
}

/// Computes `syscall_label`.
pub fn label(sysno: u64) -> (label: String)
    ensures
        label@ == syscall_label(sysno),
{
    label_from_name(sysno, lookup_syscall_name(sysno))
}

} // verus!
