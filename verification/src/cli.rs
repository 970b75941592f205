//! The command line: which options were given, what is to be traced, and in
//! which way.

use crate::text::texts;
use vstd::prelude::*;
use vstd::string::*;

verus! {

/// What the options ask of the tracer.
#[derive(Clone, Copy, Debug, PartialEq, Eq)]
pub struct TraceOptions {
    /// Print a summary table when tracing ends.
    pub summary: bool,
    /// Attach to the running process with this id.
    pub attach: Option<usize>,
    /// Trace the processes that traced processes create.
    pub follow_forks: bool,
    /// Print only the calls that failed.
    pub failed_only: bool,
    /// Mute the standard output of the traced program.
    pub quiet: bool,
}

impl TraceOptions {
    /// No option given.
    pub open spec fn none() -> TraceOptions {
        TraceOptions {
            summary: false,
            attach: None,
            follow_forks: false,
            failed_only: false,
            quiet: false,
        }
    }
}

/// What became of a command line, with each argument as its text.
pub enum ParsedText {
    MissingProgram,
    Help,
    Version,
    AttachWithFollowForks,
    InvalidPid,
    FailedOnlyWithFollowForks,
    Run { options: TraceOptions, command: Seq<Seq<char>> },
}

/// What became of a command line.
#[derive(Debug, PartialEq, Eq)]
pub enum Parsed {
    /// Nothing follows the tracer's own name.
    MissingProgram,
    /// Help was asked for.
    Help,
    /// The version was asked for.
    Version,
    /// Attaching and following forks were both asked for.
    AttachWithFollowForks,
    /// The process to attach to is missing or no process id.
    InvalidPid,
    /// Failed calls only was asked for after following forks.
    FailedOnlyWithFollowForks,
    /// Tracing can go ahead. `command` is what follows the options.
    Run { options: TraceOptions, command: Vec<String> },
}

impl View for Parsed {
    type V = ParsedText;

    open spec fn view(&self) -> ParsedText {
        match *self {
            Parsed::MissingProgram => ParsedText::MissingProgram,
            Parsed::Help => ParsedText::Help,
            Parsed::Version => ParsedText::Version,
            Parsed::AttachWithFollowForks => ParsedText::AttachWithFollowForks,
            Parsed::InvalidPid => ParsedText::InvalidPid,
            Parsed::FailedOnlyWithFollowForks => ParsedText::FailedOnlyWithFollowForks,
            Parsed::Run { options, command } => ParsedText::Run {
                options,
                command: texts(command@),
            },
        }
    }
}

impl ParsedText {
    /// The status the tracer leaves with where it does not go on to trace:
    /// 0 after help or the version, 1 where the program is missing, 100
    /// where the options are refused.
    pub open spec fn status(self) -> Option<i32> {
        match self {
            ParsedText::MissingProgram => Some(1),
            ParsedText::Help => Some(0),
            ParsedText::Version => Some(0),
            ParsedText::AttachWithFollowForks => Some(100),
            ParsedText::InvalidPid => Some(100),
            ParsedText::FailedOnlyWithFollowForks => Some(100),
            ParsedText::Run { .. } => None,
        }
    }
}

impl Parsed {
    /// The status to leave with, if the tracer is not to go on.
    pub fn exit_status(&self) -> (status: Option<i32>)
        ensures
            status == self@.status(),
    {
        match self {
            Parsed::MissingProgram => Some(1),
            Parsed::Help => Some(0),
            Parsed::Version => Some(0),
            Parsed::AttachWithFollowForks => Some(100),
            Parsed::InvalidPid => Some(100),
            Parsed::FailedOnlyWithFollowForks => Some(100),
            Parsed::Run { .. } => None,
        }
    }
}

/// Whether `c` is a decimal digit.
pub open spec fn is_digit(c: char) -> bool {
    '0' <= c <= '9'
}

/// The number that a run of decimal digits stands for.
pub open spec fn digits_value(digits: Seq<char>) -> nat
    decreases digits.len(),
{
    if digits.len() == 0 {
        0
    } else {
        digits_value(digits.drop_last()) * 10 + (digits.last() as nat - '0' as nat) as nat
    }
}

/// `text` without the `+` it may start with.
pub open spec fn unsigned_part(text: Seq<char>) -> Seq<char> {
    if text.len() > 0 && text[0] == '+' {
        text.drop_first()
    } else {
        text
    }
}

/// The process id that `text` spells: decimal digits, at least one, after
/// an optional `+`, for a number that fits `usize`. Any other text spells
/// none.
pub open spec fn parsed_pid(text: Seq<char>) -> Option<usize> {
    let digits = unsigned_part(text);
    if digits.len() > 0 && (forall|i: int| 0 <= i < digits.len() ==> is_digit(#[trigger] digits[i]))
        && digits_value(digits) <= usize::MAX {
        Some(digits_value(digits) as usize)
    } else {
        None
    }
}

/// A run of digits stands for no less than any of its leading parts.
proof fn lemma_digits_value_grows(digits: Seq<char>, n: int)
    requires
        0 <= n <= digits.len(),
    ensures
        digits_value(digits.take(n)) <= digits_value(digits),
    decreases digits.len() - n,
{
    if n == digits.len() {
        assert(digits.take(n) == digits);
    } else {
        lemma_digits_value_grows(digits, n + 1);
        assert(digits.take(n + 1).drop_last() == digits.take(n));
    }
}

/// Reads a process id.
pub fn parse_pid(text: &str) -> (pid: Option<usize>)
    ensures
        pid == parsed_pid(text@),
{
    let len: usize = text.unicode_len();
    let start: usize = if len > 0 && text.get_char(0) == '+' {
        1
    } else {
        0
    };
    if start == len {
        return None;
    }
    let ghost digits: Seq<char> = unsigned_part(text@);
    let mut value: usize = 0;
    let mut i: usize = start;
    assert(digits.take(0) == Seq::<char>::empty());
    while i < len
        invariant
            start <= i <= len,
            len == text@.len(),
            digits == unsigned_part(text@),
            digits.len() == len - start,
            forall|k: int| 0 <= k < digits.len() ==> #[trigger] digits[k] == text@[k + start],
            forall|k: int| 0 <= k < i - start ==> is_digit(#[trigger] digits[k]),
            value == digits_value(digits.take(i - start)),
        decreases len - i,
    {
        let c: char = text.get_char(i);
        if c < '0' || c > '9' {
            assert(!is_digit(digits[i - start]));
            return None;
        }
        let digit: usize = (c as u32 - '0' as u32) as usize;
        assert(digits.take(i - start + 1).drop_last() == digits.take(i - start));
        assert(digits_value(digits.take(i - start + 1)) == value * 10 + digit);
        proof {
            lemma_digits_value_grows(digits, i - start + 1);
        }
        value =
        match value.checked_mul(10) {
            Some(tens) => match tens.checked_add(digit) {
                Some(sum) => sum,
                None => {
                    return None;
                },
            },
            None => {
                return None;
            },
        };
        i += 1;
    }
    assert(digits.take(i - start) == digits);
    Some(value)
}

/// What the arguments from place `at` on come to, given the options that
/// the arguments before them have set. Options are read one after the
/// other; the first argument that is no option starts the command.
pub open spec fn parsed_from(args: Seq<Seq<char>>, at: int, options: TraceOptions) -> ParsedText
    decreases args.len() - at,
{
    if at < 0 || at >= args.len() {
        ParsedText::Run { options, command: Seq::empty() }
    } else if args[at] == "-h"@ || args[at] == "--help"@ {
        ParsedText::Help
    } else if args[at] == "-v"@ || args[at] == "--version"@ {
        ParsedText::Version
    } else if args[at] == "-c"@ || args[at] == "--summary"@ {
        parsed_from(args, at + 1, TraceOptions { summary: true, ..options })
    } else if args[at] == "-p"@ || args[at] == "--attach"@ {
        if options.follow_forks {
            ParsedText::AttachWithFollowForks
        } else if at + 1 >= args.len() {
            ParsedText::InvalidPid
        } else {
            match parsed_pid(args[at + 1]) {
                Some(pid) => parsed_from(
                    args,
                    at + 2,
                    TraceOptions { attach: Some(pid), ..options },
                ),
                None => ParsedText::InvalidPid,
            }
        }
    } else if args[at] == "-f"@ || args[at] == "--follow-forks"@ {
        if options.attach is Some {
            ParsedText::AttachWithFollowForks
        } else {
            parsed_from(args, at + 1, TraceOptions { follow_forks: true, ..options })
        }
    } else if args[at] == "-z"@ || args[at] == "--failed-only"@ {
        if options.follow_forks {
            ParsedText::FailedOnlyWithFollowForks
        } else {
            parsed_from(args, at + 1, TraceOptions { failed_only: true, ..options })
        }
    } else if args[at] == "-q"@ || args[at] == "--mute-stdout"@ {
        parsed_from(args, at + 1, TraceOptions { quiet: true, ..options })
    } else {
        ParsedText::Run { options, command: args.skip(at) }
    }
}

/// What a command line comes to. The first argument is the tracer's own
/// name; without anything after it there is nothing to trace.
pub open spec fn parsed(args: Seq<Seq<char>>) -> ParsedText {
    if args.len() < 2 {
        ParsedText::MissingProgram
    } else {
        parsed_from(args, 1, TraceOptions::none())
    }
}

fn is_either(arg: &String, short: &str, long: &str) -> (same: bool)
    ensures
        same == (arg@ == short@ || arg@ == long@),
{
    *arg == String::from_str(short) || *arg == String::from_str(long)
}

/// Reads the command line.
pub fn parse_args(args: Vec<String>) -> (outcome: Parsed)
    ensures
        outcome@ == parsed(texts(args@)),
{
    if args.len() < 2 {
        return Parsed::MissingProgram;
    }
    let mut options = TraceOptions {
        summary: false,
        attach: None,
        follow_forks: false,
        failed_only: false,
        quiet: false,
    };
    let mut at: usize = 1;
    let mut in_options: bool = true;
    while in_options && at < args.len()
        invariant
            1 <= at <= args.len(),
            parsed(texts(args@)) == parsed_from(texts(args@), at as int, options),
            !in_options ==> at < args.len() && parsed_from(texts(args@), at as int, options)
                == (ParsedText::Run { options, command: texts(args@).skip(at as int) }),
        decreases args.len() - at + if in_options { 1int } else { 0int },
    {
        let arg: &String = &args[at];
        assert(texts(args@)[at as int] == arg@);
        if is_either(arg, "-h", "--help") {
            return Parsed::Help;
        } else if is_either(arg, "-v", "--version") {
            return Parsed::Version;
        } else if is_either(arg, "-c", "--summary") {
            options.summary = true;
            at += 1;
        } else if is_either(arg, "-p", "--attach") {
            if options.follow_forks {
                return Parsed::AttachWithFollowForks;
            }
            if at + 1 >= args.len() {
                return Parsed::InvalidPid;
            }
            assert(texts(args@)[at + 1] == args[at + 1]@);
            match parse_pid(args[at + 1].as_str()) {
                Some(pid) => {
                    options.attach = Some(pid);
                    at += 2;
                },
                None => {
                    return Parsed::InvalidPid;
                },
            }
        } else if is_either(arg, "-f", "--follow-forks") {
            if options.attach.is_some() {
                return Parsed::AttachWithFollowForks;
            }
            options.follow_forks = true;
            at += 1;
        } else if is_either(arg, "-z", "--failed-only") {
            if options.follow_forks {
                return Parsed::FailedOnlyWithFollowForks;
            }
            options.failed_only = true;
            at += 1;
        } else if is_either(arg, "-q", "--mute-stdout") {
            options.quiet = true;
            at += 1;
        } else {
            in_options = false;
        }
    }
    let mut args = args;
    let ghost all: Seq<Seq<char>> = texts(args@);
    let command: Vec<String> = args.split_off(at);
    assert(texts(command@) =~= all.skip(at as int));
    assert(at == all.len() ==> all.skip(at as int) =~= Seq::<Seq<char>>::empty());
    Parsed::Run { options, command }
}

/// How tracing is to be set up, with the command as texts.
pub enum RunPlanText {
    FollowAttached { pid: i32 },
    FollowSpawned { command: Seq<Seq<char>> },
    Attached { pid: i32 },
    Spawned { command: Seq<Seq<char>> },
    NothingToRun,
}

/// How tracing is to be set up.
#[derive(Debug, PartialEq, Eq)]
pub enum RunPlan {
    /// Attach to a running process and follow its forks.
    FollowAttached { pid: i32 },
    /// Start the command and follow its forks.
    FollowSpawned { command: Vec<String> },
    /// Attach to a running process and trace it alone.
    Attached { pid: i32 },
    /// Start the command in a child process and trace it alone.
    Spawned { command: Vec<String> },
    /// There is neither a process to attach to nor a command to start.
    NothingToRun,
}

impl View for RunPlan {
    type V = RunPlanText;

    open spec fn view(&self) -> RunPlanText {
        match *self {
            RunPlan::FollowAttached { pid } => RunPlanText::FollowAttached { pid },
            RunPlan::FollowSpawned { command } => RunPlanText::FollowSpawned {
                command: texts(command@),
            },
            RunPlan::Attached { pid } => RunPlanText::Attached { pid },
            RunPlan::Spawned { command } => RunPlanText::Spawned { command: texts(command@) },
            RunPlan::NothingToRun => RunPlanText::NothingToRun,
        }
    }
}

/// The set-up that the options and the command call for. A process to
/// attach to comes before any command; its id is cut down to the 32 bits
/// of a process id.
pub open spec fn planned(options: TraceOptions, command: Seq<Seq<char>>) -> RunPlanText {
    match options.attach {
        Some(pid) => if options.follow_forks {
            RunPlanText::FollowAttached { pid: pid as i32 }
        } else {
            RunPlanText::Attached { pid: pid as i32 }
        },
        None => if command.len() == 0 {
            RunPlanText::NothingToRun
        } else if options.follow_forks {
            RunPlanText::FollowSpawned { command }
        } else {
            RunPlanText::Spawned { command }
        },
    }
}

/// Decides how tracing is to be set up.
pub fn plan_run(options: &TraceOptions, command: Vec<String>) -> (plan: RunPlan)
    ensures
        plan@ == planned(*options, texts(command@)),
{
    match options.attach {
        Some(pid) => {
            let pid: i32 = #[verifier::truncate]
            (pid as i32);
            if options.follow_forks {
                RunPlan::FollowAttached { pid }
            } else {
                RunPlan::Attached { pid }
            }
        },
        None => {
            if command.len() == 0 {
                RunPlan::NothingToRun
            } else if options.follow_forks {
                RunPlan::FollowSpawned { command }
            } else {
                RunPlan::Spawned { command }
            }
        },
    }
}

} // verus!
