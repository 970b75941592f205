//! Names of the signals of x86-64 Linux.

use vstd::prelude::*;

verus! {

/// The names of signals 1 to 30, in order of their numbers.
pub open spec fn classic_signal_names() -> Seq<Seq<char>> {
    seq![
        "SIGHUP"@,
        "SIGINT"@,
        "SIGQUIT"@,
        "SIGILL"@,
        "SIGTRAP"@,
        "SIGABRT/SIGIOT"@,
        "SIGBUS"@,
        "SIGFPE"@,
        "SIGKILL"@,
        "SIGUSR1"@,
        "SIGSEGV"@,
        "SIGUSR2"@,
        "SIGPIPE"@,
        "SIGALRM"@,
        "SIGTERM"@,
        "SIGSTKFLT"@,
        "SIGCHLD"@,
        "SIGCONT"@,
        "SIGSTOP"@,
        "SIGTSTP"@,
        "SIGTTIN"@,
        "SIGTTOU"@,
        "SIGURG"@,
        "SIGXCPU"@,
        "SIGXFSZ"@,
        "SIGVTALRM"@,
        "SIGPROF"@,
        "SIGWINCH"@,
        "SIGIO/SIGPOLL"@,
        "SIGPWR"@,
    ]
}

/// The name under which signal `signum` is reported: its own name for the
/// classic signals 1 to 30, `SIGRT` for the real-time range 34 to 64, and
/// `SIGSYS/SIGUNUSED` for every other number.
pub open spec fn signal_name(signum: u64) -> Seq<char> {
    if 1 <= signum <= 30 {
        classic_signal_names()[signum - 1]
    } else if 34 <= signum <= 64 {
        "SIGRT"@
    } else {
        "SIGSYS/SIGUNUSED"@
    }
}

/// Names a signal number. Every number has a name, so the result is never
/// `None`.
pub fn x86_signal_to_string(signum: u64) -> (name: Option<&'static str>)
    ensures
        name is Some,
        name->0@ == signal_name(signum),
{
    match signum {
        1 => Some("SIGHUP"),
        2 => Some("SIGINT"),
        3 => Some("SIGQUIT"),
        4 => Some("SIGILL"),
        5 => Some("SIGTRAP"),
        6 => Some("SIGABRT/SIGIOT"),
        7 => Some("SIGBUS"),
        8 => Some("SIGFPE"),
        9 => Some("SIGKILL"),
        10 => Some("SIGUSR1"),
        11 => Some("SIGSEGV"),
        12 => Some("SIGUSR2"),
        13 => Some("SIGPIPE"),
        14 => Some("SIGALRM"),
        15 => Some("SIGTERM"),
        16 => Some("SIGSTKFLT"),
        17 => Some("SIGCHLD"),
        18 => Some("SIGCONT"),
        19 => Some("SIGSTOP"),
        20 => Some("SIGTSTP"),
        21 => Some("SIGTTIN"),
        22 => Some("SIGTTOU"),
        23 => Some("SIGURG"),
        24 => Some("SIGXCPU"),
        25 => Some("SIGXFSZ"),
        26 => Some("SIGVTALRM"),
        27 => Some("SIGPROF"),
        28 => Some("SIGWINCH"),
        29 => Some("SIGIO/SIGPOLL"),
        30 => Some("SIGPWR"),
        34..=64 => Some("SIGRT"),
        _ => Some("SIGSYS/SIGUNUSED"),
    }
}

} // verus!
