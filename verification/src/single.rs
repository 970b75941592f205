//! Tracing one process.
//!
//! The process alternates between two stops, one as it enters a system call
//! and one as the call returns. The caller resumes the process and waits
//! for its stop, reads its registers and tells the session; the session
//! decides what that stop was and answers with the actions to carry out.
//! When an action asks for the program break, the caller reads it and
//! tells the session before it resumes the process. Once the session is
//! finished, the caller stops resuming.

use crate::action::{closing_actions, unless_summary, Action, Outcome, StopSide};
use crate::errno::{errno_check, Errno};
use crate::failure::{classify_register_failure, register_failure};
use crate::memory::ProcessBreakState;
use crate::report::timed_report;
use crate::summary::{recorded, recorded_all, tally_of, Tally, TimedTable};
use crate::syscall::{
    decoded_errno, is_exit_call, is_memory_call, RegisterRead, Registers, SyscallEvent,
    SyscallState,
};
use vstd::prelude::*;

verus! {

/// What the caller observed.
#[derive(Clone, Copy, Debug, PartialEq, Eq)]
pub enum SingleEvent {
    /// The process could not be resumed.
    ResumeFailed(Errno),
    /// The process stopped at a system-call boundary. `elapsed` is the time
    /// in nanoseconds since the clock was last started.
    Stopped { registers: RegisterRead, elapsed: u64 },
    /// The program break that an action asked for, or `None` where it
    /// could not be read.
    BreakRead(Option<usize>),
}

/// Where the session stands.
#[derive(Clone, Copy, Debug, PartialEq, Eq)]
pub enum SinglePhase {
    /// The next stop is the entry of a call.
    AwaitingEntry,
    /// A call that can move the program break was entered, and the break
    /// has yet to be read.
    AwaitingBreak(SyscallEvent),
    /// The next stop is the exit of the call that is under way.
    AwaitingExit(SyscallEvent),
    /// Tracing is over.
    Finished(Outcome),
}

/// The state of a session.
pub struct SingleState {
    pub pid: i32,
    /// Whether a summary is printed at the end.
    pub summary: bool,
    /// Whether only calls that failed are printed.
    pub failed_only: bool,
    pub phase: SinglePhase,
    /// The system call entered last, if any was.
    pub last_sysno: Option<u64>,
    /// The program break before the latest call that could move it.
    pub baseline: usize,
    pub table: Map<u64, Tally>,
}

impl SingleState {
    /// The state of a session that has seen nothing yet.
    pub open spec fn initial(pid: i32, summary: bool, failed_only: bool) -> SingleState {
        SingleState {
            pid,
            summary,
            failed_only,
            phase: SinglePhase::AwaitingEntry,
            last_sysno: None,
            baseline: 0,
            table: Map::empty(),
        }
    }

    /// The session ends with `outcome`, after `report`.
    pub open spec fn finish(self, outcome: Outcome, report: Action) -> (SingleState, Seq<Action>) {
        (
            SingleState { phase: SinglePhase::Finished(outcome), ..self },
            seq![report] + closing_actions(self.summary),
        )
    }

    /// The process could not be resumed: tracing ends with a report that
    /// names the last system call.
    pub open spec fn resume_failed(self, errno: Errno) -> (SingleState, Seq<Action>) {
        self.finish(
            Outcome::TracerFailed,
            Action::ReportTracerFailure { errno, sysno: self.last_sysno },
        )
    }

    /// The registers could not be read at a stop: tracing ends, and how
    /// depends on the error and on the system call entered last.
    pub open spec fn registers_failed(self, errno: Errno, side: StopSide) -> (
        SingleState,
        Seq<Action>,
    ) {
        let kind = register_failure(errno, self.last_sysno);
        self.finish(
            Outcome::RegistersUnavailable(kind),
            Action::ReportRegisterFailure { kind, side, sysno: self.last_sysno, errno },
        )
    }

    /// The process enters the call that `registers` show. An exit call ends
    /// tracing; it is printed and announced, unless a summary is wanted.
    /// Before a call that can move the program break, the break is asked
    /// for. Any other call just starts the clock.
    pub open spec fn entered(self, registers: Registers) -> (SingleState, Seq<Action>) {
        let event = SyscallEvent::entered(registers.orig_rax, self.pid);
        let seen = SingleState { last_sysno: Some(event.sysno), ..self };
        if is_memory_call(event.sysno) {
            (
                SingleState { phase: SinglePhase::AwaitingBreak(event), ..seen },
                seq![Action::CapturePreCall { pid: self.pid }, Action::CaptureBreak { pid: self.pid }],
            )
        } else if is_exit_call(event.sysno) {
            (
                SingleState { phase: SinglePhase::Finished(Outcome::Exited), ..seen },
                seq![Action::CapturePreCall { pid: self.pid }] + unless_summary(
                    self.summary,
                    seq![Action::Render { event }, Action::AnnounceExit { pid: self.pid }],
                ) + closing_actions(self.summary),
            )
        } else {
            (
                SingleState { phase: SinglePhase::AwaitingExit(event), ..seen },
                seq![Action::CapturePreCall { pid: self.pid }, Action::StartClock],
            )
        }
    }

    /// The answer to the request for the program break: the break becomes
    /// the baseline and the clock starts, or, where the break could not be
    /// read, tracing ends.
    pub open spec fn break_read(self, event: SyscallEvent, brk: Option<usize>) -> (
        SingleState,
        Seq<Action>,
    ) {
        match brk {
            Some(pre_call_brk) => (
                SingleState {
                    baseline: pre_call_brk,
                    phase: SinglePhase::AwaitingExit(event),
                    ..self
                },
                seq![Action::StartClock],
            ),
            None => self.finish(
                Outcome::BreakUnavailable,
                Action::ReportBreakFailure { pid: self.pid },
            ),
        }
    }

    /// The call under way has returned, with the return value in
    /// `registers` and the error `errno` decoded from it. The call is
    /// recorded with the time it took. It is printed twice, once as it was
    /// entered and once as it returned, unless a summary is wanted, or only
    /// failed calls are and it did not fail.
    pub open spec fn exited(
        self,
        event: SyscallEvent,
        registers: Registers,
        elapsed: u64,
        errno: Option<Errno>,
    ) -> (SingleState, Seq<Action>) {
        let done = event.returned(registers.rax, errno);
        let twice = if self.failed_only && errno is None {
            seq![]
        } else {
            unless_summary(
                self.summary,
                seq![
                    Action::Render { event: done.in_state(SyscallState::Entering) },
                    Action::Render { event: done.in_state(SyscallState::Exiting) },
                ],
            )
        };
        (
            SingleState {
                phase: SinglePhase::AwaitingEntry,
                table: recorded(self.table, event.sysno, elapsed as nat),
                ..self
            },
            seq![Action::CapturePostCall { pid: self.pid }] + twice,
        )
    }

    /// The state after `event`, and the actions that answer it. `errno` is
    /// the error decoded from the return register, and is read only where
    /// the event is the exit stop of a call. An event that the phase does
    /// not expect changes nothing and is answered with no action.
    pub open spec fn advance(self, event: SingleEvent, errno: Option<Errno>) -> (
        SingleState,
        Seq<Action>,
    ) {
        match (self.phase, event) {
            (SinglePhase::AwaitingEntry, SingleEvent::ResumeFailed(e)) => self.resume_failed(e),
            (
                SinglePhase::AwaitingEntry,
                SingleEvent::Stopped { registers: RegisterRead::Read(registers), .. },
            ) => self.entered(registers),
            (
                SinglePhase::AwaitingEntry,
                SingleEvent::Stopped { registers: RegisterRead::Failed(e), .. },
            ) => self.registers_failed(e, StopSide::Enter),
            (SinglePhase::AwaitingBreak(call), SingleEvent::BreakRead(brk)) => self.break_read(
                call,
                brk,
            ),
            (SinglePhase::AwaitingExit(_), SingleEvent::ResumeFailed(e)) => self.resume_failed(e),
            (
                SinglePhase::AwaitingExit(call),
                SingleEvent::Stopped { registers: RegisterRead::Read(registers), elapsed },
            ) => self.exited(call, registers, elapsed, errno),
            (
                SinglePhase::AwaitingExit(_),
                SingleEvent::Stopped { registers: RegisterRead::Failed(e), .. },
            ) => self.registers_failed(e, StopSide::Exit),
            _ => (self, seq![]),
        }
    }

    /// Whether the table has room to record what `event` may bring.
    pub open spec fn has_room(self, event: SingleEvent) -> bool {
        match (self.phase, event) {
            (
                SinglePhase::AwaitingExit(call),
                SingleEvent::Stopped { registers: RegisterRead::Read(_), .. },
            ) => tally_of(self.table, call.sysno).count < usize::MAX,
            _ => true,
        }
    }
}

/// The error decoded from the return register that `event` carries, if it
/// carries one.
pub open spec fn single_event_errno(event: SingleEvent) -> Option<Errno> {
    match event {
        SingleEvent::Stopped { registers: RegisterRead::Read(registers), .. } => decoded_errno(
            registers.rax,
        ),
        _ => None,
    }
}

/// The state that a run of events leaves a fresh session in.
pub open spec fn single_ran(
    pid: i32,
    summary: bool,
    failed_only: bool,
    events: Seq<SingleEvent>,
) -> SingleState
    decreases events.len(),
{
    if events.len() == 0 {
        SingleState::initial(pid, summary, failed_only)
    } else {
        single_ran(pid, summary, failed_only, events.drop_last()).advance(
            events.last(),
            single_event_errno(events.last()),
        ).0
    }
}

/// The calls that returned over a run of events, each as its number and
/// the nanoseconds it took: one for every stop with readable registers
/// that found the session waiting for a call's exit.
pub open spec fn returned_calls(
    pid: i32,
    summary: bool,
    failed_only: bool,
    events: Seq<SingleEvent>,
) -> Seq<(u64, nat)>
    decreases events.len(),
{
    if events.len() == 0 {
        Seq::empty()
    } else {
        let before = returned_calls(pid, summary, failed_only, events.drop_last());
        match (single_ran(pid, summary, failed_only, events.drop_last()).phase, events.last()) {
            (
                SinglePhase::AwaitingExit(call),
                SingleEvent::Stopped { registers: RegisterRead::Read(_), elapsed },
            ) => before.push((call.sysno, elapsed as nat)),
            _ => before,
        }
    }
}

/// After any run of events, the table of a session holds the calls that
/// returned, and nothing else.
pub proof fn lemma_session_records_returned_calls(
    pid: i32,
    summary: bool,
    failed_only: bool,
    events: Seq<SingleEvent>,
)
    ensures
        single_ran(pid, summary, failed_only, events).table == recorded_all(
            returned_calls(pid, summary, failed_only, events),
        ),
    decreases events.len(),
{
    if events.len() > 0 {
        lemma_session_records_returned_calls(pid, summary, failed_only, events.drop_last());
        let before = returned_calls(pid, summary, failed_only, events.drop_last());
        match (single_ran(pid, summary, failed_only, events.drop_last()).phase, events.last()) {
            (
                SinglePhase::AwaitingExit(call),
                SingleEvent::Stopped { registers: RegisterRead::Read(_), elapsed },
            ) => {
                assert(before.push((call.sysno, elapsed as nat)).drop_last() =~= before);
            },
            _ => {},
        }
    }
}

/// While a session waits for the exit of a call, or for the break before
/// it, that call is the one entered last: a call of the traced process,
/// still without a result.
pub proof fn lemma_call_under_way_was_entered_last(
    pid: i32,
    summary: bool,
    failed_only: bool,
    events: Seq<SingleEvent>,
)
    ensures
        match single_ran(pid, summary, failed_only, events).phase {
            SinglePhase::AwaitingExit(call) | SinglePhase::AwaitingBreak(call) => {
                &&& call == SyscallEvent::entered(call.sysno, pid)
                &&& single_ran(pid, summary, failed_only, events).last_sysno == Some(call.sysno)
                &&& !is_exit_call(call.sysno)
            },
            _ => true,
        },
        single_ran(pid, summary, failed_only, events).phase matches SinglePhase::AwaitingBreak(call)
            ==> is_memory_call(call.sysno),
        single_ran(pid, summary, failed_only, events).pid == pid,
    decreases events.len(),
{
    if events.len() > 0 {
        lemma_call_under_way_was_entered_last(pid, summary, failed_only, events.drop_last());
    }
}

/// A session that traces one process.
pub struct SingleSession {
    pid: i32,
    summary: bool,
    failed_only: bool,
    phase: SinglePhase,
    last_sysno: Option<u64>,
    brk: ProcessBreakState,
    table: TimedTable,
}

impl View for SingleSession {
    type V = SingleState;

    closed spec fn view(&self) -> SingleState {
        SingleState {
            pid: self.pid,
            summary: self.summary,
            failed_only: self.failed_only,
            phase: self.phase,
            last_sysno: self.last_sysno,
            baseline: self.brk.baseline,
            table: self.table@,
        }
    }
}

impl SingleSession {
    /// A session for process `pid` that has seen nothing yet.
    pub fn new(pid: i32, summary: bool, failed_only: bool) -> (session: SingleSession)
        ensures
            session@ == SingleState::initial(pid, summary, failed_only),
    {
        SingleSession {
            pid,
            summary,
            failed_only,
            phase: SinglePhase::AwaitingEntry,
            last_sysno: None,
            brk: ProcessBreakState::new(),
            table: TimedTable::new(),
        }
    }

    /// Where the session stands.
    pub fn phase(&self) -> (phase: SinglePhase)
        ensures
            phase == self@.phase,
    {
        self.phase
    }

    /// How the session ended, if it has.
    pub fn outcome(&self) -> (outcome: Option<Outcome>)
        ensures
            outcome == match self@.phase {
                SinglePhase::Finished(reason) => Some(reason),
                _ => None,
            },
    {
        match self.phase {
            SinglePhase::Finished(reason) => Some(reason),
            _ => None,
        }
    }

    /// The program break as it was before the latest call that could move
    /// it.
    pub fn break_state(&self) -> (state: ProcessBreakState)
        ensures
            state.baseline == self@.baseline,
    {
        self.brk
    }

    /// The calls recorded so far.
    pub fn table(&self) -> (table: &TimedTable)
        ensures
            table@ == self@.table,
    {
        &self.table
    }

    /// The summary of the calls recorded so far.
    pub fn report(&self) -> (text: String)
        ensures
            text@ == timed_report(self@.table),
    {
        self.table.report()
    }

    fn finish(&mut self, outcome: Outcome, report: Action) -> (actions: Vec<Action>)
        ensures
            (final(self)@, actions@) == old(self)@.finish(outcome, report),
    {
        self.phase = SinglePhase::Finished(outcome);
        let mut actions: Vec<Action> = Vec::new();
        actions.push(report);
        if self.summary {
            actions.push(Action::PrintSummary);
        }
        assert(actions@ =~= seq![report] + closing_actions(self.summary));
        actions
    }

    fn registers_failed(&mut self, errno: Errno, side: StopSide) -> (actions: Vec<Action>)
        ensures
            (final(self)@, actions@) == old(self)@.registers_failed(errno, side),
    {
        let kind = classify_register_failure(errno, self.last_sysno);
        let report = Action::ReportRegisterFailure { kind, side, sysno: self.last_sysno, errno };
        self.finish(Outcome::RegistersUnavailable(kind), report)
    }

    fn entered(&mut self, registers: Registers) -> (actions: Vec<Action>)
        ensures
            (final(self)@, actions@) == old(self)@.entered(registers),
    {
        let event = SyscallEvent::build(&registers, self.pid);
        self.last_sysno = Some(event.sysno);
        let mut actions: Vec<Action> = Vec::new();
        actions.push(Action::CapturePreCall { pid: self.pid });
        if event.is_mem_alloc_dealloc() {
            self.phase = SinglePhase::AwaitingBreak(event);
            actions.push(Action::CaptureBreak { pid: self.pid });
            assert(actions@ =~= old(self)@.entered(registers).1);
        } else if event.is_exiting() {
            self.phase = SinglePhase::Finished(Outcome::Exited);
            if self.summary {
                actions.push(Action::PrintSummary);
            } else {
                actions.push(Action::Render { event });
                actions.push(Action::AnnounceExit { pid: self.pid });
            }
            assert(actions@ =~= old(self)@.entered(registers).1);
        } else {
            self.phase = SinglePhase::AwaitingExit(event);
            actions.push(Action::StartClock);
            assert(actions@ =~= old(self)@.entered(registers).1);
        }
        actions
    }

    fn break_read(&mut self, event: SyscallEvent, brk: Option<usize>) -> (actions: Vec<Action>)
        ensures
            (final(self)@, actions@) == old(self)@.break_read(event, brk),
    {
        match brk {
            Some(pre_call_brk) => {
                self.brk.capture(pre_call_brk);
                self.phase = SinglePhase::AwaitingExit(event);
                let mut actions: Vec<Action> = Vec::new();
                actions.push(Action::StartClock);
                assert(actions@ =~= seq![Action::StartClock]);
                actions
            },
            None => self.finish(
                Outcome::BreakUnavailable,
                Action::ReportBreakFailure { pid: self.pid },
            ),
        }
    }

    fn exited(
        &mut self,
        event: SyscallEvent,
        registers: Registers,
        elapsed: u64,
        errno: Option<Errno>,
    ) -> (actions: Vec<Action>)
        requires
            tally_of(old(self)@.table, event.sysno).count < usize::MAX,
        ensures
            (final(self)@, actions@) == old(self)@.exited(event, registers, elapsed, errno),
    {
        self.table.record(event.sysno, elapsed);
        let done = SyscallEvent { result: Some(registers.rax), errno, ..event };
        self.phase = SinglePhase::AwaitingEntry;
        let mut actions: Vec<Action> = Vec::new();
        actions.push(Action::CapturePostCall { pid: self.pid });
        if !self.summary && !(self.failed_only && !done.failed()) {
            actions.push(
                Action::Render { event: SyscallEvent { state: SyscallState::Entering, ..done } },
            );
            actions.push(
                Action::Render { event: SyscallEvent { state: SyscallState::Exiting, ..done } },
            );
        }
        assert(actions@ =~= old(self)@.exited(event, registers, elapsed, errno).1);
        actions
    }

    /// Takes the session one event further, given the error `errno` that
    /// the event's return register decodes to.
    pub fn advance(&mut self, event: SingleEvent, errno: Option<Errno>) -> (actions: Vec<Action>)
        requires
            old(self)@.has_room(event),
        ensures
            (final(self)@, actions@) == old(self)@.advance(event, errno),
    {
        match (self.phase, event) {
            (SinglePhase::AwaitingEntry, SingleEvent::ResumeFailed(e)) => {
                let report = Action::ReportTracerFailure { errno: e, sysno: self.last_sysno };
                self.finish(Outcome::TracerFailed, report)
            },
            (
                SinglePhase::AwaitingEntry,
                SingleEvent::Stopped { registers: RegisterRead::Read(registers), .. },
            ) => self.entered(registers),
            (
                SinglePhase::AwaitingEntry,
                SingleEvent::Stopped { registers: RegisterRead::Failed(e), .. },
            ) => self.registers_failed(e, StopSide::Enter),
            (SinglePhase::AwaitingBreak(call), SingleEvent::BreakRead(brk)) => self.break_read(
                call,
                brk,
            ),
            (SinglePhase::AwaitingExit(_), SingleEvent::ResumeFailed(e)) => {
                let report = Action::ReportTracerFailure { errno: e, sysno: self.last_sysno };
                self.finish(Outcome::TracerFailed, report)
            },
            (
                SinglePhase::AwaitingExit(call),
                SingleEvent::Stopped { registers: RegisterRead::Read(registers), elapsed },
            ) => self.exited(call, registers, elapsed, errno),
            (
                SinglePhase::AwaitingExit(_),
                SingleEvent::Stopped { registers: RegisterRead::Failed(e), .. },
            ) => self.registers_failed(e, StopSide::Exit),
            _ => Vec::new(),
        }
    }

    /// Takes the session one event further.
    pub fn step(&mut self, event: SingleEvent) -> (actions: Vec<Action>)
        requires
            old(self)@.has_room(event),
        ensures
            (final(self)@, actions@) == old(self)@.advance(event, single_event_errno(event)),
    {
        let errno: Option<Errno> = match event {
            SingleEvent::Stopped { registers: RegisterRead::Read(registers), .. } => errno_check(
                registers.rax,
            ),
            _ => None,
        };
        self.advance(event, errno)
    }
}

} // verus!
