use intentrace::action::{Action, Outcome, StopSide};
use intentrace::errno::{Errno, EIO, ENOENT, ESRCH};
use intentrace::failure::RegisterFailure;
use intentrace::single::{SingleEvent, SinglePhase, SingleSession};
use intentrace::summary::TimedEntry;
use intentrace::syscall::{RegisterRead, Registers, SyscallEvent, SyscallState};

const PID: i32 = 4711;

fn stop(orig_rax: u64, rax: u64, elapsed: u64) -> SingleEvent {
    SingleEvent::Stopped { registers: RegisterRead::Read(Registers { orig_rax, rax }), elapsed }
}

fn unreadable(code: i32) -> SingleEvent {
    SingleEvent::Stopped { registers: RegisterRead::Failed(Errno { code }), elapsed: 0 }
}

fn entering(sysno: u64) -> SyscallEvent {
    SyscallEvent {
        sysno,
        pid: PID,
        state: SyscallState::Entering,
        paused: false,
        result: None,
        errno: None,
    }
}

fn strings(words: &[&str]) -> Vec<String> {
    words.iter().map(|word| word.to_string()).collect()
}

#[test]
fn a_fresh_session_awaits_an_entry() {
    let session = SingleSession::new(PID, false, false);
    assert_eq!(session.phase(), SinglePhase::AwaitingEntry);
    assert_eq!(session.outcome(), None);
    assert_eq!(session.break_state().baseline, 0);
    assert_eq!(session.table().get(0), None);
}

#[test]
fn one_successful_call_makes_the_whole_summary() {
    let mut session = SingleSession::new(PID, true, false);
    let at_entry = session.step(stop(1, 0, 0));
    assert_eq!(at_entry, vec![Action::CapturePreCall { pid: PID }, Action::StartClock]);
    assert_eq!(session.phase(), SinglePhase::AwaitingExit(entering(1)));

    let at_exit = session.step(stop(1, 12, 5_000));
    assert_eq!(at_exit, vec![Action::CapturePostCall { pid: PID }]);
    assert_eq!(session.phase(), SinglePhase::AwaitingEntry);
    assert_eq!(session.table().get(1), Some(TimedEntry { count: 1, nanos: 5_000 }));

    let at_end = session.step(stop(231, 0, 0));
    assert_eq!(at_end, vec![Action::CapturePreCall { pid: PID }, Action::PrintSummary]);
    assert_eq!(session.outcome(), Some(Outcome::Exited));
    assert_eq!(session.outcome().map(|outcome| outcome.exit_status()), Some(0));
    assert_eq!(
        session.table().report_rows(),
        vec![
            strings(&["% time", "seconds", "usecs/call", "calls", "syscall"]),
            strings(&[""]),
            strings(&["100.00", "0.000005", "5", "1", "write"]),
        ]
    );
    assert!(session.report().contains("| 100.00 | 0.000005 | 5          | 1     | write   |"));
}

#[test]
fn a_successful_call_is_shown_as_it_was_entered_and_as_it_returned() {
    let mut session = SingleSession::new(PID, false, false);
    session.step(stop(1, 0, 0));
    let at_exit = session.step(stop(1, 12, 5_000));
    let done = SyscallEvent { result: Some(12), ..entering(1) };
    assert_eq!(
        at_exit,
        vec![
            Action::CapturePostCall { pid: PID },
            Action::Render { event: done },
            Action::Render { event: SyscallEvent { state: SyscallState::Exiting, ..done } },
        ]
    );
    assert_eq!(session.table().get(1), Some(TimedEntry { count: 1, nanos: 5_000 }));
}

#[test]
fn with_a_summary_nothing_is_printed_of_the_calls() {
    let mut session = SingleSession::new(PID, true, false);
    assert_eq!(
        session.step(stop(2, 0, 0)),
        vec![Action::CapturePreCall { pid: PID }, Action::StartClock]
    );
    assert_eq!(
        session.step(stop(2, (-2i64) as u64, 10)),
        vec![Action::CapturePostCall { pid: PID }]
    );
    assert_eq!(
        session.step(stop(60, 0, 0)),
        vec![Action::CapturePreCall { pid: PID }, Action::PrintSummary]
    );
}

#[test]
fn an_exit_call_ends_the_session_without_a_summary_when_none_is_wanted() {
    let mut session = SingleSession::new(PID, false, false);
    let actions = session.step(stop(60, 0, 0));
    assert_eq!(
        actions,
        vec![
            Action::CapturePreCall { pid: PID },
            Action::Render { event: entering(60) },
            Action::AnnounceExit { pid: PID },
        ]
    );
    assert_eq!(session.phase(), SinglePhase::Finished(Outcome::Exited));
    assert_eq!(session.table().get(60), None);
}

#[test]
fn a_failed_read_after_an_exit_call_does_not_turn_success_into_failure() {
    let mut session = SingleSession::new(PID, true, false);
    session.step(stop(231, 0, 0));
    assert_eq!(session.outcome(), Some(Outcome::Exited));
    assert_eq!(session.step(unreadable(ESRCH)), Vec::new());
    assert_eq!(session.outcome(), Some(Outcome::Exited));
    assert_eq!(session.outcome().map(|outcome| outcome.exit_status()), Some(0));
}

#[test]
fn a_finished_session_takes_no_more_events() {
    let mut session = SingleSession::new(PID, true, false);
    session.step(stop(60, 0, 0));
    assert_eq!(session.step(stop(1, 0, 10)), Vec::new());
    assert_eq!(session.step(SingleEvent::ResumeFailed(Errno { code: EIO })), Vec::new());
    assert_eq!(session.step(SingleEvent::BreakRead(Some(5))), Vec::new());
    assert_eq!(session.phase(), SinglePhase::Finished(Outcome::Exited));
    assert_eq!(session.table().get(1), None);
    assert_eq!(session.break_state().baseline, 0);
}

#[test]
fn the_break_is_read_before_a_call_that_can_move_it() {
    let mut session = SingleSession::new(PID, false, false);
    let at_entry = session.step(stop(12, 0, 0));
    assert_eq!(
        at_entry,
        vec![Action::CapturePreCall { pid: PID }, Action::CaptureBreak { pid: PID }]
    );
    assert_eq!(session.phase(), SinglePhase::AwaitingBreak(entering(12)));

    let after_read = session.step(SingleEvent::BreakRead(Some(0x1000)));
    assert_eq!(after_read, vec![Action::StartClock]);
    assert_eq!(session.phase(), SinglePhase::AwaitingExit(entering(12)));
    assert_eq!(session.break_state().baseline, 0x1000);

    session.step(stop(12, 0x3000, 700));
    assert_eq!(session.break_state().delta(0x3000), Some(0x2000));
    assert_eq!(session.table().get(12), Some(TimedEntry { count: 1, nanos: 700 }));
}

#[test]
fn each_memory_call_asks_for_the_break() {
    for sysno in [9, 11, 12, 25] {
        let mut session = SingleSession::new(PID, false, false);
        let actions = session.step(stop(sysno, 0, 0));
        assert_eq!(
            actions,
            vec![Action::CapturePreCall { pid: PID }, Action::CaptureBreak { pid: PID }],
            "system call {sysno}"
        );
    }
    for sysno in [0, 1, 10, 13, 24, 26] {
        let mut session = SingleSession::new(PID, false, false);
        let actions = session.step(stop(sysno, 0, 0));
        assert_eq!(
            actions,
            vec![Action::CapturePreCall { pid: PID }, Action::StartClock],
            "system call {sysno}"
        );
    }
}

#[test]
fn other_calls_leave_the_baseline_alone() {
    let mut session = SingleSession::new(PID, false, false);
    session.step(stop(12, 0, 0));
    session.step(SingleEvent::BreakRead(Some(0x8000)));
    session.step(stop(12, 0x9000, 10));
    session.step(stop(1, 0, 0));
    session.step(stop(1, 5, 10));
    assert_eq!(session.break_state().baseline, 0x8000);
    assert_eq!(session.step(SingleEvent::BreakRead(Some(0x1234))), Vec::new());
    assert_eq!(session.break_state().baseline, 0x8000);
}

#[test]
fn a_break_that_cannot_be_read_ends_the_session() {
    let mut session = SingleSession::new(PID, true, false);
    session.step(stop(9, 0, 0));
    let actions = session.step(SingleEvent::BreakRead(None));
    assert_eq!(actions, vec![Action::ReportBreakFailure { pid: PID }, Action::PrintSummary]);
    assert_eq!(session.outcome(), Some(Outcome::BreakUnavailable));
    assert_eq!(session.outcome().map(|outcome| outcome.exit_status()), Some(1));
}

#[test]
fn a_stop_while_the_break_is_awaited_is_ignored() {
    let mut session = SingleSession::new(PID, false, false);
    session.step(stop(9, 0, 0));
    assert_eq!(session.step(stop(9, 0, 5)), Vec::new());
    assert_eq!(session.step(SingleEvent::ResumeFailed(Errno { code: EIO })), Vec::new());
    assert_eq!(session.phase(), SinglePhase::AwaitingBreak(entering(9)));
}

#[test]
fn a_failed_call_carries_its_error_number() {
    let mut session = SingleSession::new(PID, false, false);
    session.step(stop(2, 0, 0));
    let actions = session.step(stop(2, (-2i64) as u64, 40));
    let done = SyscallEvent {
        result: Some((-2i64) as u64),
        errno: Some(Errno { code: ENOENT }),
        ..entering(2)
    };
    assert_eq!(
        actions,
        vec![
            Action::CapturePostCall { pid: PID },
            Action::Render { event: done },
            Action::Render { event: SyscallEvent { state: SyscallState::Exiting, ..done } },
        ]
    );
}

#[test]
fn with_failed_only_a_successful_call_is_recorded_but_not_printed() {
    let mut session = SingleSession::new(PID, false, true);
    session.step(stop(0, 0, 0));
    let actions = session.step(stop(0, 100, 2_000));
    assert_eq!(actions, vec![Action::CapturePostCall { pid: PID }]);
    assert_eq!(session.table().get(0), Some(TimedEntry { count: 1, nanos: 2_000 }));
}

#[test]
fn with_failed_only_a_failed_call_is_printed() {
    let mut session = SingleSession::new(PID, false, true);
    session.step(stop(0, 0, 0));
    let actions = session.step(stop(0, (-5i64) as u64, 2_000));
    assert_eq!(actions.len(), 3);
    assert_eq!(actions[0], Action::CapturePostCall { pid: PID });
    match actions[2] {
        Action::Render { event } => {
            assert_eq!(event.errno, Some(Errno { code: EIO }));
            assert_eq!(event.state, SyscallState::Exiting);
        }
        other => panic!("unexpected action {other:?}"),
    }
}

#[test]
fn the_session_can_be_advanced_with_an_error_decoded_elsewhere() {
    let mut session = SingleSession::new(PID, false, false);
    session.advance(stop(3, 0, 0), None);
    let actions = session.advance(stop(3, 77, 10), Some(Errno { code: 9 }));
    match actions[1] {
        Action::Render { event } => {
            assert_eq!(event.result, Some(77));
            assert_eq!(event.errno, Some(Errno { code: 9 }));
            assert_eq!(event.state, SyscallState::Entering);
        }
        other => panic!("unexpected action {other:?}"),
    }
}

#[test]
fn calls_are_recorded_with_the_time_they_took() {
    let mut session = SingleSession::new(PID, true, false);
    for (sysno, elapsed) in [(0u64, 100u64), (1, 250), (0, 300), (3, 0), (0, 600)] {
        session.step(stop(sysno, 0, 99_999));
        session.step(stop(sysno, 0, elapsed));
    }
    assert_eq!(session.table().get(0), Some(TimedEntry { count: 3, nanos: 1_000 }));
    assert_eq!(session.table().get(1), Some(TimedEntry { count: 1, nanos: 250 }));
    assert_eq!(session.table().get(3), Some(TimedEntry { count: 1, nanos: 0 }));
}

#[test]
fn registers_that_vanish_with_the_process_end_the_session_cleanly() {
    let mut session = SingleSession::new(PID, true, false);
    session.step(stop(1, 0, 0));
    let actions = session.step(unreadable(ESRCH));
    assert_eq!(
        actions,
        vec![
            Action::ReportRegisterFailure {
                kind: RegisterFailure::Disappeared,
                side: StopSide::Exit,
                sysno: Some(1),
                errno: Errno { code: ESRCH },
            },
            Action::PrintSummary,
        ]
    );
    assert_eq!(
        session.outcome(),
        Some(Outcome::RegistersUnavailable(RegisterFailure::Disappeared))
    );
    assert_eq!(session.outcome().map(|outcome| outcome.exit_status()), Some(0));
    assert_eq!(session.table().get(1), None);
}

#[test]
fn registers_that_fail_otherwise_end_the_session_with_an_error() {
    let mut session = SingleSession::new(PID, false, false);
    session.step(stop(1, 0, 0));
    let actions = session.step(unreadable(EIO));
    assert_eq!(
        actions,
        vec![Action::ReportRegisterFailure {
            kind: RegisterFailure::Unclassified,
            side: StopSide::Exit,
            sysno: Some(1),
            errno: Errno { code: EIO },
        }]
    );
    assert_eq!(session.outcome().map(|outcome| outcome.exit_status()), Some(1));
}

#[test]
fn registers_that_fail_at_the_very_first_stop() {
    let mut session = SingleSession::new(PID, false, false);
    let actions = session.step(unreadable(ESRCH));
    assert_eq!(
        actions,
        vec![Action::ReportRegisterFailure {
            kind: RegisterFailure::Disappeared,
            side: StopSide::Enter,
            sysno: None,
            errno: Errno { code: ESRCH },
        }]
    );
    assert_eq!(
        session.phase(),
        SinglePhase::Finished(Outcome::RegistersUnavailable(RegisterFailure::Disappeared))
    );
}

#[test]
fn a_failed_resume_ends_the_session_and_names_the_last_call() {
    let mut session = SingleSession::new(PID, true, false);
    session.step(stop(0, 0, 0));
    session.step(stop(0, 10, 50));
    session.step(stop(1, 0, 0));
    let actions = session.step(SingleEvent::ResumeFailed(Errno { code: ESRCH }));
    assert_eq!(
        actions,
        vec![
            Action::ReportTracerFailure { errno: Errno { code: ESRCH }, sysno: Some(1) },
            Action::PrintSummary,
        ]
    );
    assert_eq!(session.outcome(), Some(Outcome::TracerFailed));
    assert_eq!(session.outcome().map(|outcome| outcome.exit_status()), Some(1));
    assert_eq!(session.table().get(0), Some(TimedEntry { count: 1, nanos: 50 }));
}

#[test]
fn a_failed_resume_before_any_call() {
    let mut session = SingleSession::new(PID, false, false);
    let actions = session.step(SingleEvent::ResumeFailed(Errno { code: EIO }));
    assert_eq!(actions, vec![Action::ReportTracerFailure { errno: Errno { code: EIO }, sysno: None }]);
    assert_eq!(session.outcome(), Some(Outcome::TracerFailed));
}

#[test]
fn an_unexpected_break_reading_is_ignored() {
    let mut session = SingleSession::new(PID, false, false);
    assert_eq!(session.step(SingleEvent::BreakRead(Some(0x1000))), Vec::new());
    assert_eq!(session.step(SingleEvent::BreakRead(None)), Vec::new());
    assert_eq!(session.phase(), SinglePhase::AwaitingEntry);
    assert_eq!(session.break_state().baseline, 0);
}
