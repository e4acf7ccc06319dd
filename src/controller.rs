//! Decisions of the run: what the options ask of the probe, and the outcome
//! that the halted target shows.
use vstd::prelude::*;

use crate::backtrace::Outcome;
use crate::cli::Opts;
use crate::elf::{clear_thumb_bit, thumb_cleared};
use crate::paths::{chars_of, find_from, find_spec};
use crate::target_info::StackInfo;

verus! {

/// The steps that the options ask for.
#[derive(PartialEq, Eq, Structural, Clone, Copy, Debug)]
pub struct RunPlan {
    /// Write the image to flash.
    pub flash: bool,
    /// Mass-erase before flashing.
    pub erase_all: bool,
    /// Reset and halt before the run and after it; otherwise only halt
    /// before, and remove the instrumentation and resume after.
    pub reset: bool,
    /// Paint the stack canary (it cannot be done on a running program).
    pub install_canary: bool,
}

/// Plans the run: flashing is skipped with `--no-flash`; `--no-reset`
/// attaches to the running program, which rules out flashing and the canary.
pub fn run_plan(opts: &Opts) -> (r: RunPlan)
    ensures
        r.reset == !opts.no_reset,
        r.flash == (!opts.no_reset && !opts.no_flash),
        r.erase_all == (r.flash && opts.erase_all),
        r.install_canary == !opts.no_reset,
{
    let reset = !opts.no_reset;
    let flash = reset && !opts.no_flash;
    RunPlan { flash, erase_all: flash && opts.erase_all, reset, install_canary: reset }
}

/// Why a run stops before the program starts.
#[derive(PartialEq, Eq, Structural, Clone, Copy, Debug)]
pub enum ControllerError {
    /// Stack measurement was asked for and the canary could not be placed.
    StackMeasurement,
}

/// A requested stack measurement needs a placed canary; without a reset no
/// canary is placed and none is asked for.
pub fn check_stack_measurement(measure_stack: bool, reset: bool, canary_placed: bool) -> (r: Result<
    (),
    ControllerError,
>)
    ensures
        r is Err <==> (measure_stack && reset && !canary_placed),
{
    if measure_stack && reset && !canary_placed {
        Err(ControllerError::StackMeasurement)
    } else {
        Ok(())
    }
}

/// The outcome that the halted target shows, before a Control-C is taken
/// into account: halted in the hard-fault handler is a hard fault, or a
/// stack overflow where the stack pointer left the stack region or the
/// canary found the stack nearly used up over static data; elsewhere a
/// likely overflow is reported too, and a clean halt is a success.
pub open spec fn preliminary_outcome(at_hard_fault: bool, sp_left_stack: bool, overflow_likely: bool) -> Outcome {
    if at_hard_fault {
        if sp_left_stack || overflow_likely {
            Outcome::StackOverflow
        } else {
            Outcome::HardFault
        }
    } else if overflow_likely {
        Outcome::StackOverflow
    } else {
        Outcome::Success
    }
}

/// The stack pointer lies below the stack region.
pub open spec fn sp_left_stack(sp: u32, stack: Option<StackInfo>) -> bool {
    stack matches Some(s) && sp < s.range_start
}

/// The run's outcome, from the halted core's pc and sp, the hard-fault
/// handler's address, the stack region, the canary's verdict, and whether
/// Control-C stopped the run (which turns a success into `CtrlC`).
pub fn diagnose(
    pc: u32,
    sp: u32,
    hard_fault_handler: u32,
    stack: Option<StackInfo>,
    overflow_likely: bool,
    halted_due_to_signal: bool,
) -> (r: Outcome)
    ensures
        r == ({
            let pre = preliminary_outcome(
                thumb_cleared(pc) == thumb_cleared(hard_fault_handler),
                sp_left_stack(sp, stack),
                overflow_likely,
            );
            if halted_due_to_signal && pre == Outcome::Success {
                Outcome::CtrlC
            } else {
                pre
            }
        }),
{
    let at_hard_fault = clear_thumb_bit(pc) == clear_thumb_bit(hard_fault_handler);
    let left = match stack {
        Some(s) => sp < s.range_start,
        None => false,
    };
    let pre = if at_hard_fault {
        if left || overflow_likely {
            Outcome::StackOverflow
        } else {
            Outcome::HardFault
        }
    } else if overflow_likely {
        Outcome::StackOverflow
    } else {
        Outcome::Success
    };
    pre.after_signal(halted_due_to_signal)
}


/// The marker of the probe error that no device answers on JTAG.
pub open spec fn jtag_no_device_marker() -> Seq<char> {
    seq![
        'J', 't', 'a', 'g', 'N', 'o', 'D', 'e', 'v', 'i', 'c', 'e', 'C', 'o', 'n', 'n', 'e', 'c',
        't', 'e', 'd',
    ]
}

/// Whether a probe error, as text, says that no device answers on JTAG; the
/// user is then told to try `--connect-under-reset`.
pub fn suggests_connect_under_reset(error: &str) -> (r: bool)
    ensures
        r == (find_spec(error@, jtag_no_device_marker(), 0) is Some),
{
    let e = chars_of(error);
    let marker = vec![
        'J', 't', 'a', 'g', 'N', 'o', 'D', 'e', 'v', 'i', 'c', 'e', 'C', 'o', 'n', 'n', 'e', 'c',
        't', 'e', 'd',
    ];
    assert(marker@ == jtag_no_device_marker());
    find_from(&e, &marker, 0).is_some()
}

} // verus!
