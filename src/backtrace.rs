use vstd::prelude::*;

use crate::cli::Opts;
use crate::text::str_eq;

verus! {

/// When a backtrace is printed.
#[derive(PartialEq, Eq, Structural, Clone, Copy, Debug)]
pub enum BacktraceOptions {
    Auto,
    Never,
    Always,
}

/// The option that a `--backtrace` value names, if any.
pub open spec fn backtrace_option_of(s: Seq<char>) -> Option<BacktraceOptions> {
    if s == "auto"@ || s == "Auto"@ {
        Some(BacktraceOptions::Auto)
    } else if s == "never"@ || s == "Never"@ {
        Some(BacktraceOptions::Never)
    } else if s == "always"@ || s == "Always"@ {
        Some(BacktraceOptions::Always)
    } else {
        None
    }
}

impl BacktraceOptions {
    /// Reads a `--backtrace` value; `None` where it names no option.
    pub fn from_name(s: &str) -> (r: Option<BacktraceOptions>)
        ensures
            r == backtrace_option_of(s@),
    {
        if str_eq(s, "auto") || str_eq(s, "Auto") {
            Some(BacktraceOptions::Auto)
        } else if str_eq(s, "never") || str_eq(s, "Never") {
            Some(BacktraceOptions::Never)
        } else if str_eq(s, "always") || str_eq(s, "Always") {
            Some(BacktraceOptions::Always)
        } else {
            None
        }
    }
}


/// What the run's backtrace step is configured with.
pub struct Settings {
    pub backtrace_limit: u32,
    pub backtrace: BacktraceOptions,
    pub current_dir: String,
    pub halted_due_to_signal: bool,
    pub include_addresses: bool,
    pub shorten_paths: bool,
    pub stack_overflow: bool,
}

impl Settings {
    pub fn new(
        current_dir: String,
        halted_due_to_signal: bool,
        opts: &Opts,
        stack_overflow: bool,
    ) -> (r: Self)
        requires
            backtrace_option_of(opts.backtrace@) is Some,
        ensures
            r.backtrace_limit == opts.backtrace_limit,
            Some(r.backtrace) == backtrace_option_of(opts.backtrace@),
            r.current_dir@ == current_dir@,
            r.halted_due_to_signal == halted_due_to_signal,
            r.include_addresses == (opts.verbose > 0),
            r.shorten_paths == opts.shorten_paths,
            r.stack_overflow == stack_overflow,
    {
        let backtrace = match BacktraceOptions::from_name(opts.backtrace.as_str()) {
            Some(b) => b,
            None => BacktraceOptions::Auto,
        };
        Settings {
            backtrace_limit: opts.backtrace_limit,
            backtrace,
            current_dir,
            halted_due_to_signal,
            include_addresses: opts.verbose > 0,
            shorten_paths: opts.shorten_paths,
            stack_overflow,
        }
    }

    /// Whether the run ended in a way that always deserves a backtrace in `auto` mode.
    pub fn panic_present(&self) -> (r: bool)
        ensures
            r == (self.stack_overflow || self.halted_due_to_signal),
    {
        self.stack_overflow || self.halted_due_to_signal
    }

    /// Whether the backtrace is printed, given what unwinding found.
    pub fn should_print(&self, outcome: Outcome, corrupted: bool, contains_exception: bool) -> (r:
        bool)
        ensures
            r == print_policy(
                self.backtrace,
                self.stack_overflow,
                self.halted_due_to_signal,
                outcome,
                corrupted,
                contains_exception,
            ),
    {
        match self.backtrace {
            BacktraceOptions::Never => false,
            BacktraceOptions::Always => true,
            BacktraceOptions::Auto => {
                self.panic_present() || outcome == Outcome::StackOverflow || corrupted
                    || contains_exception
            },
        }
    }

    /// The number of frames to print: the configured limit, where `0` stands
    /// for all `n_frames` frames.
    pub fn effective_limit(&self, n_frames: usize) -> (r: usize)
        ensures
            self.backtrace_limit == 0 ==> r == n_frames,
            self.backtrace_limit != 0 ==> r == self.backtrace_limit,
    {
        if self.backtrace_limit == 0 {
            n_frames
        } else {
            self.backtrace_limit as usize
        }
    }
}

/// The printing policy of `--backtrace`.
pub open spec fn print_policy(
    option: BacktraceOptions,
    stack_overflow: bool,
    halted_due_to_signal: bool,
    outcome: Outcome,
    corrupted: bool,
    contains_exception: bool,
) -> bool {
    match option {
        BacktraceOptions::Never => false,
        BacktraceOptions::Always => true,
        BacktraceOptions::Auto => stack_overflow || halted_due_to_signal || outcome
            == Outcome::StackOverflow || corrupted || contains_exception,
    }
}

/// Target program outcome.
#[derive(PartialEq, Eq, Structural, Clone, Copy, Debug)]
pub enum Outcome {
    HardFault,
    /// The device halted without error.
    Success,
    StackOverflow,
    /// Control-C was pressed.
    CtrlC,
}

/// Severity of a host log line.
#[derive(PartialEq, Eq, Structural, Clone, Copy, Debug)]
pub enum LogLevel {
    Error,
    Info,
}

/// The message that reports an outcome.
pub open spec fn outcome_message(o: Outcome) -> Seq<char> {
    match o {
        Outcome::StackOverflow => "the program has overflowed its stack"@,
        Outcome::HardFault => "the program panicked"@,
        Outcome::Success => "device halted without error"@,
        Outcome::CtrlC => "interrupted by user"@,
    }
}

/// Relies on `signal_hook::consts::signal::SIGABRT`, libc's value of the
/// signal: 6 on every Unix target, 22 on Windows.
#[verifier::external_body]
fn sigabrt() -> (r: i32)
    ensures
        r == 6 || r == 22,
{
    signal_hook::consts::signal::SIGABRT
}

/// Relies on `signal_hook::consts::signal::SIGINT`, libc's value of the
/// signal: 2 on every target.
#[verifier::external_body]
fn sigint() -> (r: i32)
    ensures
        r == 2,
{
    signal_hook::consts::signal::SIGINT
}

impl Outcome {
    /// The level and the line with which the outcome is reported.
    pub fn log(&self) -> (r: (LogLevel, &'static str))
        ensures
            r.1@ == outcome_message(*self),
            r.0 == (if *self == Outcome::Success || *self == Outcome::CtrlC {
                LogLevel::Info
            } else {
                LogLevel::Error
            }),
    {
        match self {
            Outcome::StackOverflow => (LogLevel::Error, "the program has overflowed its stack"),
            Outcome::HardFault => (LogLevel::Error, "the program panicked"),
            Outcome::Success => (LogLevel::Info, "device halted without error"),
            Outcome::CtrlC => (LogLevel::Info, "interrupted by user"),
        }
    }

    /// The process exit code that mirrors the outcome: `0` for `Success`, the
    /// value of SIGABRT for a fault or an overflow, that of SIGINT for Control-C.
    pub fn exit_code(self) -> (r: i32)
        ensures
            is_exit_code_of(self, r),
    {
        match self {
            Outcome::HardFault | Outcome::StackOverflow => sigabrt(),
            Outcome::CtrlC => sigint(),
            Outcome::Success => 0,
        }
    }

    /// The outcome reported after the run: a clean halt that Control-C
    /// brought about is reported as `CtrlC`.
    pub fn after_signal(self, halted_due_to_signal: bool) -> (r: Outcome)
        ensures
            r == (if halted_due_to_signal && self == Outcome::Success {
                Outcome::CtrlC
            } else {
                self
            }),
    {
        if halted_due_to_signal && self == Outcome::Success {
            Outcome::CtrlC
        } else {
            self
        }
    }
}

/// The exit code that `Outcome::exit_code` gives, as a relation.
pub open spec fn is_exit_code_of(o: Outcome, code: i32) -> bool {
    match o {
        Outcome::Success => code == 0,
        Outcome::CtrlC => code == 2,
        Outcome::HardFault | Outcome::StackOverflow => code == 6 || code == 22,
    }
}

/// An exit code of zero is given by the `Success` outcome alone: whatever the
/// run ended in, a successful exit status means that the reported outcome is `Success`.
pub proof fn lemma_zero_exit_only_for_ok(o: Outcome, code: i32)
    requires
        is_exit_code_of(o, code),
        code == 0,
    ensures
        o == Outcome::Success,
{
}


/// A symbolicated frame: its pc (`None` for an exception marker), function
/// name, and source location where known.
#[derive(Clone, Debug)]
pub struct Frame {
    pub pc: Option<u32>,
    pub name: String,
    pub file: Option<String>,
    pub line: Option<u32>,
}

impl View for Frame {
    type V = (Option<u32>, Seq<char>, Option<Seq<char>>, Option<u32>);

    open spec fn view(&self) -> Self::V {
        (
            self.pc,
            self.name@,
            match self.file {
                Some(f) => Some(f@),
                None => None,
            },
            self.line,
        )
    }
}

/// Two frames share function, file and line.
pub open spec fn same_place(a: (Option<u32>, Seq<char>, Option<Seq<char>>, Option<u32>), b: (
    Option<u32>,
    Seq<char>,
    Option<Seq<char>>,
    Option<u32>,
)) -> bool {
    a.1 == b.1 && a.2 == b.2 && a.3 == b.3
}

/// The first `n` frames with each frame dropped that shares function, file
/// and line with the frame before it.
pub open spec fn collapsed(
    s: Seq<(Option<u32>, Seq<char>, Option<Seq<char>>, Option<u32>)>,
    n: int,
) -> Seq<(Option<u32>, Seq<char>, Option<Seq<char>>, Option<u32>)>
    decreases n,
{
    if n <= 0 {
        Seq::empty()
    } else if n >= 2 && same_place(s[n - 2], s[n - 1]) {
        collapsed(s, n - 1)
    } else {
        collapsed(s, n - 1).push(s[n - 1])
    }
}

fn same_file(a: &Option<String>, b: &Option<String>) -> (r: bool)
    ensures
        r == (match (a, b) {
            (Some(x), Some(y)) => x@ == y@,
            (None, None) => true,
            _ => false,
        }),
{
    match (a, b) {
        (Some(x), Some(y)) => str_eq(x.as_str(), y.as_str()),
        (None, None) => true,
        _ => false,
    }
}

/// Collapses adjacent frames that share function, file and line into the first of them.
pub fn collapse_frames(frames: &Vec<Frame>) -> (r: Vec<Frame>)
    ensures
        r@.map_values(|f: Frame| f@) == collapsed(
            frames@.map_values(|f: Frame| f@),
            frames@.len() as int,
        ),
{
    let ghost fv = frames@.map_values(|f: Frame| f@);
    let mut out: Vec<Frame> = Vec::new();
    let mut i: usize = 0;
    while i < frames.len()
        invariant
            i <= frames@.len(),
            fv == frames@.map_values(|f: Frame| f@),
            out@.map_values(|f: Frame| f@) == collapsed(fv, i as int),
        decreases frames@.len() - i,
    {
        let f = &frames[i];
        let same = if i == 0 {
            false
        } else {
            let prev = &frames[i - 1];
            str_eq(prev.name.as_str(), f.name.as_str()) && same_file(&prev.file, &f.file)
                && prev.line == f.line
        };
        assert(i >= 1 ==> fv[i - 1] == frames@[i - 1]@);
        assert(fv[i as int] == frames@[i as int]@);
        if !same {
            let c = Frame { pc: f.pc, name: f.name.clone(), file: f.file.clone(), line: f.line };
            out.push(c);
            assert(out@.map_values(|f: Frame| f@) == collapsed(fv, i as int).push(fv[i as int]));
        }
        i += 1;
    }
    out
}

} // verus!
