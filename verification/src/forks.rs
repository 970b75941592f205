//! Tracing a process together with the processes it creates.
//!
//! Stops of all traced processes arrive in one stream, in whatever order
//! the kernel delivers them. The session keeps, for each process, the call
//! it has entered and not yet left, so that every exit stop meets its
//! entry. Where the stream turns from one process to another while a call
//! is under way, that call is marked as paused. Calls are printed as they
//! come, with a mark where one is left under way, or they are counted for
//! the summary.

use crate::action::{closing_actions, unless_summary, Action, Outcome, StopSide};
use crate::errno::{errno_check, Errno};
use crate::failure::{classify_register_failure, register_failure, RegisterFailure};
use crate::report::count_report;
use crate::summary::{count_of, counted, counted_all, CountTable};
use crate::syscall::{
    decoded_errno, is_exit_call, RegisterRead, Registers, SyscallEvent, SyscallState,
};
use std::collections::HashMap;
use vstd::prelude::*;

verus! {

broadcast use vstd::std_specs::hash::group_hash_axioms;

/// What the caller observed.
#[derive(Clone, Copy, Debug, PartialEq, Eq)]
pub enum ForkEvent {
    /// Process `pid` stopped as it enters a call.
    SyscallEnter { pid: i32, registers: RegisterRead },
    /// Process `pid` stopped as a call returns.
    SyscallExit { pid: i32, registers: RegisterRead },
    /// Process `pid` stopped for another reason.
    OtherStop { pid: i32 },
    /// No traced process is left to wait for.
    NoTracees,
    /// Waiting for a stop, or resuming a process, failed.
    TracerFailed(Errno),
}

/// The state of a session.
pub struct ForkState {
    /// Whether calls are counted and a summary is printed at the end.
    pub summary: bool,
    /// By process, the call it has entered and not yet left.
    pub in_flight: Map<i32, SyscallEvent>,
    /// By process, the system call it entered last.
    pub last_calls: Map<i32, u64>,
    /// The process whose stop was handled last.
    pub last_pid: Option<i32>,
    pub counts: Map<u64, nat>,
    /// Why the session is over, once it is.
    pub outcome: Option<Outcome>,
}

impl ForkState {
    /// The state of a session that has seen nothing yet.
    pub open spec fn initial(summary: bool) -> ForkState {
        ForkState {
            summary,
            in_flight: Map::empty(),
            last_calls: Map::empty(),
            last_pid: None,
            counts: Map::empty(),
            outcome: None,
        }
    }

    /// The system call that process `pid` entered last, if it is known to
    /// have entered any.
    pub open spec fn last_call_of(self, pid: i32) -> Option<u64> {
        if self.last_calls.contains_key(pid) {
            Some(self.last_calls[pid])
        } else {
            None
        }
    }

    /// The system call that was entered last by the process handled last.
    pub open spec fn last_call(self) -> Option<u64> {
        match self.last_pid {
            Some(pid) => self.last_call_of(pid),
            None => None,
        }
    }

    /// Whether the stream turns away from a call under way as it turns to
    /// `pid`.
    pub open spec fn leaves_call(self, pid: i32) -> bool {
        self.last_pid is Some && self.last_pid->0 != pid && self.in_flight.contains_key(
            self.last_pid->0,
        )
    }

    /// The stream turns to `pid`. The call of the process handled last, if
    /// that is another process with a call under way, becomes paused, and
    /// the reader is told unless a summary is wanted.
    pub open spec fn refocused(self, pid: i32) -> (ForkState, Seq<Action>) {
        if self.leaves_call(pid) {
            let last = self.last_pid->0;
            (
                ForkState {
                    in_flight: self.in_flight.insert(last, self.in_flight[last].set_paused()),
                    ..self
                },
                unless_summary(self.summary, seq![Action::AnnouncePause]),
            )
        } else {
            (self, seq![])
        }
    }

    /// Process `pid` enters the call that `registers` show. The call is
    /// counted if a summary is wanted, and printed if not. Unless it is an exit
    /// call, it becomes the call under way for `pid`, in place of any call
    /// that was still held for it.
    pub open spec fn entered(self, pid: i32, registers: Registers) -> (ForkState, Seq<Action>) {
        let event = SyscallEvent::entered(registers.orig_rax, pid);
        let counts = if self.summary {
            counted(self.counts, event.sysno)
        } else {
            self.counts
        };
        let last_calls = self.last_calls.insert(pid, event.sysno);
        if is_exit_call(event.sysno) {
            (
                ForkState { counts, last_calls, last_pid: Some(pid), ..self },
                seq![Action::CapturePreCall { pid }] + unless_summary(
                    self.summary,
                    seq![Action::Render { event }, Action::AnnounceExit { pid }],
                ) + seq![Action::Resume { pid }],
            )
        } else {
            (
                ForkState {
                    counts,
                    last_calls,
                    last_pid: Some(pid),
                    in_flight: self.in_flight.insert(pid, event.in_state(SyscallState::Exiting)),
                    ..self
                },
                seq![Action::CapturePreCall { pid }] + unless_summary(
                    self.summary,
                    seq![Action::Render { event }],
                ) + seq![Action::Resume { pid }],
            )
        }
    }

    /// A call of process `pid` returns, with the return value in
    /// `registers` and the error `errno` decoded from it. If a call is held
    /// for `pid` it is completed, printed unless a summary is wanted, and
    /// let go; if none is, nothing happens. Either way the process is
    /// resumed.
    pub open spec fn exited(self, pid: i32, registers: Registers, errno: Option<Errno>) -> (
        ForkState,
        Seq<Action>,
    ) {
        if self.in_flight.contains_key(pid) {
            (
                ForkState {
                    in_flight: self.in_flight.remove(pid),
                    last_pid: Some(pid),
                    ..self
                },
                seq![Action::CapturePostCall { pid }] + unless_summary(
                    self.summary,
                    seq![Action::Render { event: self.in_flight[pid].returned(registers.rax, errno) }],
                ) + seq![Action::Resume { pid }],
            )
        } else {
            (ForkState { last_pid: Some(pid), ..self }, seq![Action::Resume { pid }])
        }
    }

    /// The registers of process `pid` could not be read at a stop. What
    /// that means depends on the error and on the call the process entered
    /// last. Where the process has ended or vanished, tracing of that
    /// process is over: what is held of it is let go and it is not resumed.
    /// Any other failure ends the session.
    pub open spec fn registers_failed(self, pid: i32, errno: Errno, side: StopSide) -> (
        ForkState,
        Seq<Action>,
    ) {
        let sysno = self.last_call_of(pid);
        let kind = register_failure(errno, sysno);
        let report = Action::ReportRegisterFailure { kind, side, sysno, errno };
        if kind == RegisterFailure::Unclassified {
            (
                ForkState { outcome: Some(Outcome::RegistersUnavailable(kind)), ..self },
                seq![report] + closing_actions(self.summary),
            )
        } else {
            (
                ForkState {
                    in_flight: self.in_flight.remove(pid),
                    last_calls: self.last_calls.remove(pid),
                    last_pid: Some(pid),
                    ..self
                },
                seq![report],
            )
        }
    }

    /// The state after a stop of `pid` at the entry of a call.
    pub open spec fn enter_stop(self, pid: i32, registers: RegisterRead) -> (
        ForkState,
        Seq<Action>,
    ) {
        let (turned, told) = self.refocused(pid);
        let (next, actions) = match registers {
            RegisterRead::Read(read) => turned.entered(pid, read),
            RegisterRead::Failed(e) => turned.registers_failed(pid, e, StopSide::Enter),
        };
        (next, told + actions)
    }

    /// The state after a stop of `pid` at the exit of a call.
    pub open spec fn exit_stop(self, pid: i32, registers: RegisterRead, errno: Option<Errno>) -> (
        ForkState,
        Seq<Action>,
    ) {
        let (turned, told) = self.refocused(pid);
        let (next, actions) = match registers {
            RegisterRead::Read(read) => turned.exited(pid, read, errno),
            RegisterRead::Failed(e) => turned.registers_failed(pid, e, StopSide::Exit),
        };
        (next, told + actions)
    }

    /// The state after `event`, and the actions that answer it. `errno` is
    /// the error decoded from the return register, and is read only at the
    /// exit of a call. A session that is over takes no more events.
    pub open spec fn advance(self, event: ForkEvent, errno: Option<Errno>) -> (
        ForkState,
        Seq<Action>,
    ) {
        if self.outcome is Some {
            (self, seq![])
        } else {
            match event {
                ForkEvent::SyscallEnter { pid, registers } => self.enter_stop(pid, registers),
                ForkEvent::SyscallExit { pid, registers } => self.exit_stop(pid, registers, errno),
                ForkEvent::OtherStop { pid } => (self, seq![Action::Resume { pid }]),
                ForkEvent::NoTracees => (
                    ForkState { outcome: Some(Outcome::Drained), ..self },
                    closing_actions(self.summary),
                ),
                ForkEvent::TracerFailed(e) => (
                    ForkState { outcome: Some(Outcome::TracerFailed), ..self },
                    seq![Action::ReportTracerFailure { errno: e, sysno: self.last_call() }]
                        + closing_actions(self.summary),
                ),
            }
        }
    }

    /// The state after `event`, with the error decoded from the event's own
    /// return register.
    pub open spec fn step(self, event: ForkEvent) -> (ForkState, Seq<Action>) {
        self.advance(event, fork_event_errno(event))
    }

    /// Whether the table has room to count what `event` may bring.
    pub open spec fn has_room(self, event: ForkEvent) -> bool {
        match event {
            ForkEvent::SyscallEnter { registers: RegisterRead::Read(read), .. } => self.summary
                && self.outcome is None ==> count_of(self.counts, read.orig_rax) < usize::MAX,
            _ => true,
        }
    }
}

/// The error decoded from the return register that `event` carries, if it
/// carries one.
pub open spec fn fork_event_errno(event: ForkEvent) -> Option<Errno> {
    match event {
        ForkEvent::SyscallExit { registers: RegisterRead::Read(read), .. } => decoded_errno(
            read.rax,
        ),
        _ => None,
    }
}

/// The state that a run of events leaves a fresh session in.
pub open spec fn ran(summary: bool, events: Seq<ForkEvent>) -> ForkState
    decreases events.len(),
{
    if events.len() == 0 {
        ForkState::initial(summary)
    } else {
        ran(summary, events.drop_last()).step(events.last()).0
    }
}

/// Whether, of the system-call stops of `pid` among `events` at which the
/// registers were read, the latest is the entry of a call that is no exit
/// call.
pub open spec fn pending_entry(events: Seq<ForkEvent>, pid: i32) -> bool
    decreases events.len(),
{
    if events.len() == 0 {
        false
    } else {
        let before = pending_entry(events.drop_last(), pid);
        match events.last() {
            ForkEvent::SyscallEnter { pid: stopped, registers: RegisterRead::Read(read) } => {
                if stopped == pid {
                    !is_exit_call(read.orig_rax)
                } else {
                    before
                }
            },
            ForkEvent::SyscallExit { pid: stopped, registers: RegisterRead::Read(_) } => {
                if stopped == pid {
                    false
                } else {
                    before
                }
            },
            _ => before,
        }
    }
}

/// Whether `events` are stops at which the registers could be read, with
/// no process entering an exit call while an earlier call of its own is
/// still under way.
pub open spec fn orderly(events: Seq<ForkEvent>) -> bool {
    forall|k: int|
        0 <= k < events.len() ==> match #[trigger] events[k] {
            ForkEvent::SyscallEnter { pid, registers: RegisterRead::Read(read) } => is_exit_call(
                read.orig_rax,
            ) ==> !pending_entry(events.take(k), pid),
            ForkEvent::SyscallExit { registers: RegisterRead::Read(_), .. } => true,
            ForkEvent::OtherStop { .. } => true,
            _ => false,
        }
}

proof fn lemma_refocus_keeps_processes(state: ForkState, pid: i32, other: i32)
    ensures
        state.refocused(pid).0.in_flight.contains_key(other) <==> state.in_flight.contains_key(
            other,
        ),
        state.refocused(pid).0.outcome == state.outcome,
{
}

/// One stop at which the registers were read changes which processes have
/// a call held in just one place: the process that stopped has one after
/// entering a call that is no exit call, has none after an exit stop, and
/// keeps what it had after entering an exit call.
pub proof fn lemma_stop_moves_one_process(state: ForkState, event: ForkEvent, other: i32)
    requires
        state.outcome is None,
        event is SyscallEnter || event is SyscallExit || event is OtherStop,
        event matches ForkEvent::SyscallEnter { registers, .. } ==> registers is Read,
        event matches ForkEvent::SyscallExit { registers, .. } ==> registers is Read,
    ensures
        state.step(event).0.outcome is None,
        state.step(event).0.in_flight.contains_key(other) <==> match event {
            ForkEvent::SyscallEnter { pid, registers: RegisterRead::Read(read) } => {
                if pid == other {
                    !is_exit_call(read.orig_rax) || state.in_flight.contains_key(other)
                } else {
                    state.in_flight.contains_key(other)
                }
            },
            ForkEvent::SyscallExit { pid, .. } => pid != other && state.in_flight.contains_key(
                other,
            ),
            _ => state.in_flight.contains_key(other),
        },
{
    match event {
        ForkEvent::SyscallEnter { pid, .. } => {
            lemma_refocus_keeps_processes(state, pid, other);
        },
        ForkEvent::SyscallExit { pid, .. } => {
            lemma_refocus_keeps_processes(state, pid, other);
        },
        _ => {},
    }
}

/// After any orderly run of stops, a call is held for a process exactly if
/// the latest system-call stop of that process was the entry of a call
/// other than an exit call, with no exit stop of the process since.
pub proof fn lemma_in_flight_is_pending(summary: bool, events: Seq<ForkEvent>, pid: i32)
    requires
        orderly(events),
    ensures
        ran(summary, events).in_flight.contains_key(pid) <==> pending_entry(events, pid),
        ran(summary, events).outcome is None,
    decreases events.len(),
{
    if events.len() > 0 {
        let earlier = events.drop_last();
        let last = events.last();
        assert forall|k: int| 0 <= k < earlier.len() implies match #[trigger] earlier[k] {
            ForkEvent::SyscallEnter { pid, registers: RegisterRead::Read(read) } => is_exit_call(
                read.orig_rax,
            ) ==> !pending_entry(earlier.take(k), pid),
            ForkEvent::SyscallExit { registers: RegisterRead::Read(_), .. } => true,
            ForkEvent::OtherStop { .. } => true,
            _ => false,
        } by {
            assert(earlier[k] == events[k]);
            assert(earlier.take(k) == events.take(k));
        }
        lemma_in_flight_is_pending(summary, earlier, pid);
        assert(last == events[events.len() - 1]);
        assert(events.take(events.len() - 1) == earlier);
        lemma_stop_moves_one_process(ran(summary, earlier), last, pid);
    }
}

/// Whether every call that is held belongs to the process it is held for,
/// is no exit call, is on its way to its exit and has no result yet.
pub open spec fn calls_under_way(state: ForkState) -> bool {
    forall|pid: i32| #[trigger]
        state.in_flight.contains_key(pid) ==> {
            &&& state.in_flight[pid].pid == pid
            &&& state.in_flight[pid].state == SyscallState::Exiting
            &&& !is_exit_call(state.in_flight[pid].sysno)
            &&& state.in_flight[pid].result is None
            &&& state.in_flight[pid].errno is None
        }
}

proof fn lemma_refocus_keeps_under_way(state: ForkState, pid: i32)
    requires
        calls_under_way(state),
    ensures
        calls_under_way(state.refocused(pid).0),
{
    let next = state.refocused(pid).0;
    assert forall|p: i32| #[trigger] next.in_flight.contains_key(p) implies {
        &&& next.in_flight[p].pid == p
        &&& next.in_flight[p].state == SyscallState::Exiting
        &&& !is_exit_call(next.in_flight[p].sysno)
        &&& next.in_flight[p].result is None
        &&& next.in_flight[p].errno is None
    } by {
        assert(state.in_flight.contains_key(p));
    }
}

/// No event takes a session in which every held call is under way to one
/// in which some held call is not.
pub proof fn lemma_step_keeps_under_way(state: ForkState, event: ForkEvent, errno: Option<Errno>)
    requires
        calls_under_way(state),
    ensures
        calls_under_way(state.advance(event, errno).0),
{
    let next = state.advance(event, errno).0;
    if state.outcome is None {
        match event {
            ForkEvent::SyscallEnter { pid, .. } => {
                lemma_refocus_keeps_under_way(state, pid);
                let turned = state.refocused(pid).0;
                assert forall|p: i32| #[trigger] next.in_flight.contains_key(p) implies {
                    &&& next.in_flight[p].pid == p
                    &&& next.in_flight[p].state == SyscallState::Exiting
                    &&& !is_exit_call(next.in_flight[p].sysno)
                    &&& next.in_flight[p].result is None
                    &&& next.in_flight[p].errno is None
                } by {
                    if p != pid {
                        assert(turned.in_flight.contains_key(p));
                    }
                }
            },
            ForkEvent::SyscallExit { pid, .. } => {
                lemma_refocus_keeps_under_way(state, pid);
                let turned = state.refocused(pid).0;
                assert forall|p: i32| #[trigger] next.in_flight.contains_key(p) implies {
                    &&& next.in_flight[p].pid == p
                    &&& next.in_flight[p].state == SyscallState::Exiting
                    &&& !is_exit_call(next.in_flight[p].sysno)
                    &&& next.in_flight[p].result is None
                    &&& next.in_flight[p].errno is None
                } by {
                    assert(turned.in_flight.contains_key(p));
                }
            },
            _ => {},
        }
    }
}

/// After any run of events, whatever they are, every call that is held
/// belongs to the process it is held for, is no exit call, is on its way to
/// its exit and has no result yet.
pub proof fn lemma_in_flight_is_under_way(summary: bool, events: Seq<ForkEvent>)
    ensures
        calls_under_way(ran(summary, events)),
    decreases events.len(),
{
    if events.len() > 0 {
        lemma_in_flight_is_under_way(summary, events.drop_last());
        lemma_step_keeps_under_way(
            ran(summary, events.drop_last()),
            events.last(),
            fork_event_errno(events.last()),
        );
    }
}

/// The calls that were counted over a run of events: where a summary is
/// wanted, one for every entry stop with readable registers that reached
/// the session before it was over.
pub open spec fn counted_calls(summary: bool, events: Seq<ForkEvent>) -> Seq<u64>
    decreases events.len(),
{
    if events.len() == 0 {
        Seq::empty()
    } else {
        let before = counted_calls(summary, events.drop_last());
        match events.last() {
            ForkEvent::SyscallEnter { registers: RegisterRead::Read(read), .. } => {
                if summary && ran(summary, events.drop_last()).outcome is None {
                    before.push(read.orig_rax)
                } else {
                    before
                }
            },
            _ => before,
        }
    }
}

/// After any run of events, the table of a session holds the calls that
/// were counted, and nothing else.
pub proof fn lemma_session_counts_entered_calls(summary: bool, events: Seq<ForkEvent>)
    ensures
        ran(summary, events).counts == counted_all(counted_calls(summary, events)),
        ran(summary, events).summary == summary,
    decreases events.len(),
{
    if events.len() > 0 {
        lemma_session_counts_entered_calls(summary, events.drop_last());
        let before = counted_calls(summary, events.drop_last());
        match events.last() {
            ForkEvent::SyscallEnter { registers: RegisterRead::Read(read), .. } => {
                assert(before.push(read.orig_rax).drop_last() =~= before);
            },
            _ => {},
        }
    }
}

/// A session that follows forks.
pub struct ForkSession {
    summary: bool,
    in_flight: HashMap<i32, SyscallEvent>,
    last_calls: HashMap<i32, u64>,
    last_pid: Option<i32>,
    counts: CountTable,
    outcome: Option<Outcome>,
}

impl View for ForkSession {
    type V = ForkState;

    closed spec fn view(&self) -> ForkState {
        ForkState {
            summary: self.summary,
            in_flight: self.in_flight@,
            last_calls: self.last_calls@,
            last_pid: self.last_pid,
            counts: self.counts@,
            outcome: self.outcome,
        }
    }
}

impl ForkSession {
    /// A session that has seen nothing yet.
    pub fn new(summary: bool) -> (session: ForkSession)
        ensures
            session@ == ForkState::initial(summary),
    {
        ForkSession {
            summary,
            in_flight: HashMap::new(),
            last_calls: HashMap::new(),
            last_pid: None,
            counts: CountTable::new(),
            outcome: None,
        }
    }

    /// How the session ended, if it has.
    pub fn outcome(&self) -> (outcome: Option<Outcome>)
        ensures
            outcome == self@.outcome,
    {
        self.outcome
    }

    /// The call that process `pid` has entered and not yet left.
    pub fn in_flight(&self, pid: i32) -> (event: Option<SyscallEvent>)
        ensures
            event == if self@.in_flight.contains_key(pid) {
                Some(self@.in_flight[pid])
            } else {
                None
            },
    {
        match self.in_flight.get(&pid) {
            Some(found) => Some(*found),
            None => None,
        }
    }

    /// The system call that process `pid` entered last.
    pub fn last_call_of(&self, pid: i32) -> (sysno: Option<u64>)
        ensures
            sysno == self@.last_call_of(pid),
    {
        match self.last_calls.get(&pid) {
            Some(found) => Some(*found),
            None => None,
        }
    }

    /// The system call that was entered last by the process handled last.
    pub fn last_call(&self) -> (sysno: Option<u64>)
        ensures
            sysno == self@.last_call(),
    {
        match self.last_pid {
            Some(pid) => self.last_call_of(pid),
            None => None,
        }
    }

    /// How many processes have a call under way.
    pub fn in_flight_len(&self) -> (len: usize)
        ensures
            len == self@.in_flight.len(),
    {
        self.in_flight.len()
    }

    /// The calls counted so far.
    pub fn table(&self) -> (table: &CountTable)
        ensures
            table@ == self@.counts,
    {
        &self.counts
    }

    /// The summary of the calls counted so far.
    pub fn report(&self) -> (text: String)
        ensures
            text@ == count_report(self@.counts),
    {
        self.counts.report()
    }

    fn refocus(&mut self, pid: i32, actions: &mut Vec<Action>)
        ensures
            final(self)@ == old(self)@.refocused(pid).0,
            final(actions)@ == old(actions)@ + old(self)@.refocused(pid).1,
    {
        let ghost before = self@;
        if let Some(last) = self.last_pid {
            if last != pid {
                let held: Option<SyscallEvent> = self.in_flight(last);
                if let Some(call) = held {
                    self.in_flight.insert(last, SyscallEvent { paused: true, ..call });
                    if !self.summary {
                        actions.push(Action::AnnouncePause);
                    }
                    assert(final(actions)@ =~= old(actions)@ + before.refocused(pid).1);
                    return ;
                }
            }
        }
        assert(!before.leaves_call(pid));
        assert(actions@ =~= old(actions)@ + Seq::<Action>::empty());
    }

    fn registers_failed(&mut self, pid: i32, errno: Errno, side: StopSide, actions: &mut Vec<Action>)
        ensures
            final(self)@ == old(self)@.registers_failed(pid, errno, side).0,
            final(actions)@ == old(actions)@ + old(self)@.registers_failed(pid, errno, side).1,
    {
        let sysno: Option<u64> = self.last_call_of(pid);
        let kind = classify_register_failure(errno, sysno);
        actions.push(Action::ReportRegisterFailure { kind, side, sysno, errno });
        match kind {
            RegisterFailure::Unclassified => {
                self.outcome = Some(Outcome::RegistersUnavailable(kind));
                if self.summary {
                    actions.push(Action::PrintSummary);
                }
            },
            _ => {
                self.in_flight.remove(&pid);
                self.last_calls.remove(&pid);
                self.last_pid = Some(pid);
            },
        }
        assert(final(actions)@ =~= old(actions)@ + old(self)@.registers_failed(pid, errno, side).1);
    }

    fn entered(&mut self, pid: i32, registers: Registers, actions: &mut Vec<Action>)
        requires
            old(self)@.summary ==> count_of(old(self)@.counts, registers.orig_rax) < usize::MAX,
        ensures
            final(self)@ == old(self)@.entered(pid, registers).0,
            final(actions)@ == old(actions)@ + old(self)@.entered(pid, registers).1,
    {
        let event = SyscallEvent::build(&registers, pid);
        if self.summary {
            self.counts.record(event.sysno);
        }
        self.last_calls.insert(pid, event.sysno);
        actions.push(Action::CapturePreCall { pid });
        if !self.summary {
            actions.push(Action::Render { event });
        }
        if event.is_exiting() {
            if !self.summary {
                actions.push(Action::AnnounceExit { pid });
            }
        } else {
            self.in_flight.insert(pid, SyscallEvent { state: SyscallState::Exiting, ..event });
        }
        self.last_pid = Some(pid);
        actions.push(Action::Resume { pid });
        assert(final(actions)@ =~= old(actions)@ + old(self)@.entered(pid, registers).1);
    }

    fn exited(
        &mut self,
        pid: i32,
        registers: Registers,
        errno: Option<Errno>,
        actions: &mut Vec<Action>,
    )
        ensures
            final(self)@ == old(self)@.exited(pid, registers, errno).0,
            final(actions)@ == old(actions)@ + old(self)@.exited(pid, registers, errno).1,
    {
        let held: Option<SyscallEvent> = self.in_flight(pid);
        if let Some(call) = held {
            let done = SyscallEvent { result: Some(registers.rax), errno, ..call };
            actions.push(Action::CapturePostCall { pid });
            if !self.summary {
                actions.push(Action::Render { event: done });
            }
            self.in_flight.remove(&pid);
        }
        self.last_pid = Some(pid);
        actions.push(Action::Resume { pid });
        assert(final(actions)@ =~= old(actions)@ + old(self)@.exited(pid, registers, errno).1);
    }

    /// Takes the session one event further, given the error `errno` that
    /// the event's return register decodes to.
    pub fn advance(&mut self, event: ForkEvent, errno: Option<Errno>) -> (actions: Vec<Action>)
        requires
            old(self)@.has_room(event),
        ensures
            (final(self)@, actions@) == old(self)@.advance(event, errno),
    {
        let mut actions: Vec<Action> = Vec::new();
        if self.outcome.is_some() {
            return actions;
        }
        match event {
            ForkEvent::SyscallEnter { pid, registers } => {
                self.refocus(pid, &mut actions);
                match registers {
                    RegisterRead::Read(read) => self.entered(pid, read, &mut actions),
                    RegisterRead::Failed(e) => self.registers_failed(
                        pid,
                        e,
                        StopSide::Enter,
                        &mut actions,
                    ),
                }
            },
            ForkEvent::SyscallExit { pid, registers } => {
                self.refocus(pid, &mut actions);
                match registers {
                    RegisterRead::Read(read) => self.exited(pid, read, errno, &mut actions),
                    RegisterRead::Failed(e) => self.registers_failed(
                        pid,
                        e,
                        StopSide::Exit,
                        &mut actions,
                    ),
                }
            },
            ForkEvent::OtherStop { pid } => {
                actions.push(Action::Resume { pid });
            },
            ForkEvent::NoTracees => {
                self.outcome = Some(Outcome::Drained);
                if self.summary {
                    actions.push(Action::PrintSummary);
                }
            },
            ForkEvent::TracerFailed(e) => {
                let sysno: Option<u64> = self.last_call();
                self.outcome = Some(Outcome::TracerFailed);
                actions.push(Action::ReportTracerFailure { errno: e, sysno });
                if self.summary {
                    actions.push(Action::PrintSummary);
                }
            },
        }
        assert(actions@ =~= old(self)@.advance(event, errno).1);
        actions
    }

    /// Takes the session one event further.
    pub fn step(&mut self, event: ForkEvent) -> (actions: Vec<Action>)
        requires
            old(self)@.has_room(event),
        ensures
            (final(self)@, actions@) == old(self)@.step(event),
    {
        let errno: Option<Errno> = match event {
            ForkEvent::SyscallExit { registers: RegisterRead::Read(read), .. } => errno_check(
                read.rax,
            ),
            _ => None,
        };
        self.advance(event, errno)
    }
}

} // verus!
