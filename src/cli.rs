use vstd::prelude::*;

use crate::paths::{chars_of, find_from, find_spec, matches_at};

verus! {

/// Command-line options of the runner, as plain values.
pub struct Opts {
    /// `auto`, `never` or `always` (either case of the first letter).
    pub backtrace: String,
    /// Number of frames printed before the backtrace is cut off; `0` is no limit.
    pub backtrace_limit: u32,
    pub chip: Option<String>,
    pub chip_description_path: Option<String>,
    pub connect_under_reset: bool,
    pub disable_double_buffering: bool,
    pub elf: Option<String>,
    pub erase_all: bool,
    pub json: bool,
    pub list_chips: bool,
    pub list_probes: bool,
    pub log_format: Option<String>,
    pub host_log_format: Option<String>,
    pub measure_stack: bool,
    pub no_flash: bool,
    /// Attach to the running program instead of resetting it.
    pub no_reset: bool,
    pub probe: Option<String>,
    pub shorten_paths: bool,
    pub speed: Option<u32>,
    pub verbose: u8,
    pub verify: bool,
    pub version: bool,
}


/// What the runner was asked to do.
#[derive(PartialEq, Eq, Clone, Debug)]
pub enum Command {
    /// Print the version and exit.
    Version,
    /// List the connected probes and exit.
    ListProbes,
    /// List the supported chips and exit.
    ListChips,
    /// Run an image on a chip.
    Run { elf: String, chip: String },
}

/// Picks the command: a helper flag wins over running an image, in the
/// order version, probes, chips.
pub fn command(opts: &Opts) -> (r: Command)
    requires
        opts.version || opts.list_probes || opts.list_chips || (opts.elf is Some && opts.chip is Some),
    ensures
        opts.version ==> r == Command::Version,
        !opts.version && opts.list_probes ==> r == Command::ListProbes,
        !opts.version && !opts.list_probes && opts.list_chips ==> r == Command::ListChips,
        !opts.version && !opts.list_probes && !opts.list_chips ==> (r matches Command::Run {
            elf,
            chip,
        } && elf@ == opts.elf->Some_0@ && chip@ == opts.chip->Some_0@),
{
    if opts.version {
        Command::Version
    } else if opts.list_probes {
        Command::ListProbes
    } else if opts.list_chips {
        Command::ListChips
    } else {
        match (&opts.elf, &opts.chip) {
            (Some(elf), Some(chip)) => Command::Run { elf: elf.clone(), chip: chip.clone() },
            _ => Command::Version,
        }
    }
}

/// The default format of device log lines.
pub open spec fn default_log_format() -> Seq<char> {
    "{L} {s}\n└─ {m} @ {F}:{l}"@
}

/// The default format of host log lines.
pub open spec fn default_host_log_format() -> Seq<char> {
    "(HOST) {L} {s}"@
}

/// The default format of host log lines with `--verbose`.
pub open spec fn default_verbose_host_log_format() -> Seq<char> {
    "(HOST) {L} {s}\n└─ {m} @ {F}:{l}"@
}

/// The log formats in use: the given ones, or the defaults (for host lines,
/// a longer one with `--verbose`).
pub fn log_formats(log_format: Option<String>, host_log_format: Option<String>, verbose: u8) -> (r: (
    String,
    String,
))
    ensures
        r.0@ == (match log_format {
            Some(f) => f@,
            None => default_log_format(),
        }),
        r.1@ == (match host_log_format {
            Some(f) => f@,
            None => if verbose == 0 {
                default_host_log_format()
            } else {
                default_verbose_host_log_format()
            },
        }),
{
    let log = match log_format {
        Some(f) => f,
        None => String::from_str("{L} {s}\n└─ {m} @ {F}:{l}"),
    };
    let host = match host_log_format {
        Some(f) => f,
        None => if verbose == 0 {
            String::from_str("(HOST) {L} {s}")
        } else {
            String::from_str("(HOST) {L} {s}\n└─ {m} @ {F}:{l}")
        },
    };
    (log, host)
}

/// The log target names this runner's own code.
pub open spec fn is_runner_target_spec(target: Seq<char>) -> bool {
    target.len() >= 9 && target.subrange(0, 9) == seq!['p', 'r', 'o', 'b', 'e', '_', 'r', 'u', 'n']
}

/// Whether a log target starts with `probe_run`.
pub fn is_runner_target(target: &str) -> (r: bool)
    ensures
        r == is_runner_target_spec(target@),
{
    let t = chars_of(target);
    let prefix = vec!['p', 'r', 'o', 'b', 'e', '_', 'r', 'u', 'n'];
    if t.len() < prefix.len() {
        return false;
    }
    matches_at(&t, &prefix, 0)
}

/// Which host log records are shown: every device log frame; otherwise,
/// by the number of `--verbose` flags, the runner's own records of level
/// info or above (0), all of the runner's records (1), or everything (2 or more).
pub fn host_log_enabled(verbose: u8, is_device_frame: bool, from_runner: bool, at_most_info: bool) -> (r:
    bool)
    ensures
        r == (is_device_frame || (verbose == 0 && from_runner && at_most_info) || (verbose == 1
            && from_runner) || verbose >= 2),
{
    if is_device_frame {
        true
    } else {
        match verbose {
            0 => from_runner && at_most_info,
            1 => from_runner,
            _ => true,
        }
    }
}

/// The abbreviated object name in a `git describe --long` string: its third
/// dash-separated field. `None` where it has fewer than two dashes.
pub open spec fn git_hash_of(s: Seq<char>) -> Option<Seq<char>> {
    match find_spec(s, seq!['-'], 0) {
        None => None,
        Some(d1) => match find_spec(s, seq!['-'], d1 + 1) {
            None => None,
            Some(d2) => {
                let end = match find_spec(s, seq!['-'], d2 + 1) {
                    Some(d3) => d3,
                    None => s.len() as int,
                };
                Some(s.subrange(d2 + 1, end))
            },
        },
    }
}

/// Extracts the git hash from a `git describe --long` statement, e.g.
/// `g25c50d2` from `v0.2.3-12-g25c50d2`.
pub fn extract_git_hash(git_describe: &str) -> (r: &str)
    requires
        git_hash_of(git_describe@) is Some,
    ensures
        r@ == git_hash_of(git_describe@)->Some_0,
{
    let s = chars_of(git_describe);
    let n = s.len();
    let dash = vec!['-'];
    assert(dash@ == seq!['-']);
    let d1 = match find_from(&s, &dash, 0) {
        Some(d) => d,
        None => 0,
    };
    let d2 = match find_from(&s, &dash, d1 + 1) {
        Some(d) => d,
        None => d1,
    };
    let end = match find_from(&s, &dash, d2 + 1) {
        Some(d) => d,
        None => n,
    };
    git_describe.substring_char(d2 + 1, end)
}

} // verus!
