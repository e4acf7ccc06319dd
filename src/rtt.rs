//! The RTT log channel: where its mode flags live, how the mode is switched,
//! and how attaching to the control block is retried.
use vstd::prelude::*;

use crate::elf::clear_thumb_bit;
use crate::elf::thumb_cleared;
use crate::text::str_eq;

verus! {

/// Offset of the up-channel flags word inside the RTT control block.
pub const UP_CHANNEL_FLAGS_OFFSET: u32 = 44;

/// The mode bits of the flags word.
pub const MODE_MASK: u32 = 0b11;

/// Non-blocking mode that writes what fits and drops the rest.
pub const MODE_NON_BLOCKING_TRIM: u32 = 0b01;

/// Blocking mode: the target waits while the buffer is full.
pub const MODE_BLOCK_IF_FULL: u32 = 0b10;

/// How many times attaching to the control block is tried.
pub const NUM_ATTACH_RETRIES: usize = 10;

/// Address of the up-channel flags word of the control block at `control_block`.
pub fn up_channel_flags_address(control_block: u32) -> (r: u32)
    requires
        control_block + UP_CHANNEL_FLAGS_OFFSET <= u32::MAX,
    ensures
        r == control_block + UP_CHANNEL_FLAGS_OFFSET,
{
    control_block + UP_CHANNEL_FLAGS_OFFSET
}

/// The mode bits for blocking or non-blocking operation.
pub open spec fn mode_bits(is_blocking: bool) -> u32 {
    if is_blocking {
        MODE_BLOCK_IF_FULL
    } else {
        MODE_NON_BLOCKING_TRIM
    }
}

/// The flags word with its mode set: the two low bits become the mode, the
/// other bits stay as they were.
pub fn with_mode(flags: u32, is_blocking: bool) -> (r: u32)
    ensures
        r & MODE_MASK == mode_bits(is_blocking),
        r & !MODE_MASK == flags & !MODE_MASK,
{
    let mode = if is_blocking {
        MODE_BLOCK_IF_FULL
    } else {
        MODE_NON_BLOCKING_TRIM
    };
    let r = (flags & !MODE_MASK) | mode;
    assert(r & 3u32 == mode && r & !3u32 == flags & !3u32) by (bit_vector)
        requires
            r == (flags & !3u32) | mode,
            mode == 1u32 || mode == 2u32,
    ;
    r
}

/// Why the program cannot be run.
#[derive(PartialEq, Eq, Structural, Clone, Copy, Debug)]
pub enum AttachError {
    /// The image uses RTT, which needs a hardware breakpoint, and the device has none.
    RttWithoutBreakpoints,
}

/// What to do before the program is resumed.
#[derive(PartialEq, Eq, Structural, Clone, Copy, Debug)]
pub struct AttachPlan {
    /// The device has no hardware breakpoint: a hard fault will not stop the run.
    pub warn_no_breakpoints: bool,
    /// Switch the RTT channel of the control block at this address to
    /// blocking mode, once the program has reached `main` (before that, the
    /// start-up code may still initialise the control block).
    pub set_rtt_blocking: Option<u32>,
    /// Where to stop first: at `main`, where there is a channel to switch.
    pub main_breakpoint: Option<u32>,
    /// Where the hard-fault breakpoint goes (the handler, Thumb bit cleared).
    pub hard_fault_breakpoint: u32,
}

/// Plans the instrumentation: a device without breakpoint units cannot run
/// an image that uses RTT, and only warns otherwise.
pub fn attach_plan(
    breakpoint_units: u32,
    rtt_buffer_address: Option<u32>,
    main_function_address: u32,
    hard_fault: u32,
) -> (r: Result<AttachPlan, AttachError>)
    ensures
        breakpoint_units == 0 && rtt_buffer_address is Some ==> r == Err::<AttachPlan, AttachError>(
            AttachError::RttWithoutBreakpoints,
        ),
        !(breakpoint_units == 0 && rtt_buffer_address is Some) ==> r == Ok::<
            AttachPlan,
            AttachError,
        >(
            AttachPlan {
                warn_no_breakpoints: breakpoint_units == 0,
                set_rtt_blocking: rtt_buffer_address,
                main_breakpoint: if rtt_buffer_address is Some {
                    Some(main_function_address)
                } else {
                    None
                },
                hard_fault_breakpoint: thumb_cleared(hard_fault),
            },
        ),
{
    if breakpoint_units == 0 && rtt_buffer_address.is_some() {
        return Err(AttachError::RttWithoutBreakpoints);
    }
    Ok(
        AttachPlan {
            warn_no_breakpoints: breakpoint_units == 0,
            set_rtt_blocking: rtt_buffer_address,
            main_breakpoint: match rtt_buffer_address {
                Some(_) => Some(main_function_address),
                None => None,
            },
            hard_fault_breakpoint: clear_thumb_bit(hard_fault),
        },
    )
}

/// The result of one attempt to attach to the control block.
#[derive(PartialEq, Eq, Structural, Clone, Copy, Debug)]
pub enum AttachAttempt {
    /// Attached; whether the control block has up channel 0.
    Attached { has_up_channel_0: bool },
    /// The target has not initialised the control block (yet).
    ControlBlockNotFound,
    /// Any other error.
    Failed,
}

/// What follows an attempt to attach.
#[derive(PartialEq, Eq, Structural, Clone, Copy, Debug)]
pub enum AttachStep {
    /// Use up channel 0.
    Ready,
    /// Try again.
    Retry,
    /// Attached, but there is no up channel 0.
    NoUpChannel,
    /// The attempt failed for good.
    Failed,
    /// The control block was still not found after the last attempt.
    RetriesExhausted,
}

/// Decides after attempt number `attempt` (counting from 1): a control block
/// that is not found yet is looked for again, up to `NUM_ATTACH_RETRIES`
/// attempts; every other error ends the search.
pub fn attach_step(attempt: usize, result: AttachAttempt) -> (r: AttachStep)
    requires
        1 <= attempt <= NUM_ATTACH_RETRIES,
    ensures
        r == (match result {
            AttachAttempt::Attached { has_up_channel_0 } => if has_up_channel_0 {
                AttachStep::Ready
            } else {
                AttachStep::NoUpChannel
            },
            AttachAttempt::ControlBlockNotFound => if attempt < NUM_ATTACH_RETRIES {
                AttachStep::Retry
            } else {
                AttachStep::RetriesExhausted
            },
            AttachAttempt::Failed => AttachStep::Failed,
        }),
{
    match result {
        AttachAttempt::Attached { has_up_channel_0 } => if has_up_channel_0 {
            AttachStep::Ready
        } else {
            AttachStep::NoUpChannel
        },
        AttachAttempt::ControlBlockNotFound => if attempt < NUM_ATTACH_RETRIES {
            AttachStep::Retry
        } else {
            AttachStep::RetriesExhausted
        },
        AttachAttempt::Failed => AttachStep::Failed,
    }
}

/// How the bytes of the log channel are handled.
#[derive(PartialEq, Eq, Structural, Clone, Copy, Debug)]
pub enum LogMode {
    /// The image has no RTT control block: there is nothing to read.
    NoChannel,
    /// Decoded as structured log frames.
    Structured,
    /// Written verbatim to standard output.
    Raw,
}

/// The log set-up, with the warning that goes with it.
#[derive(PartialEq, Eq, Structural, Clone, Copy, Debug)]
pub struct LogSetup {
    pub mode: LogMode,
    /// Structured logging without a fresh reset or flash: the decoder may see stale data.
    pub warn_stale: bool,
}

/// Why logging cannot be set up.
#[derive(PartialEq, Eq, Structural, Clone, Copy, Debug)]
pub enum LogSetupError {
    /// The channel carries structured frames but the image holds no log table.
    MissingLogTable,
}

/// The channel carries structured log frames.
pub open spec fn is_structured_name(name: Option<Seq<char>>) -> bool {
    name == Some("defmt"@)
}

/// Whether a channel of this name (`None`: unnamed) carries structured log frames.
pub fn is_structured_channel(name: Option<&str>) -> (r: bool)
    ensures
        r == (name matches Some(n) && n@ == "defmt"@),
{
    match name {
        Some(n) => str_eq(n, "defmt"),
        None => false,
    }
}

/// The log mode spec of `log_setup`.
pub open spec fn log_setup_of(
    has_channel: bool,
    structured: bool,
    has_table: bool,
    reset: bool,
    no_flash: bool,
) -> Result<LogSetup, LogSetupError> {
    let use_structured = has_channel && structured;
    let warn = use_structured && (!reset || no_flash);
    if use_structured && !warn && !has_table {
        Err(LogSetupError::MissingLogTable)
    } else {
        Ok(
            LogSetup {
                mode: if !has_channel {
                    LogMode::NoChannel
                } else if use_structured && has_table {
                    LogMode::Structured
                } else {
                    LogMode::Raw
                },
                warn_stale: warn,
            },
        )
    }
}

/// Chooses how the log channel is read. A structured channel is decoded
/// with the image's log table; where the target was not reset or not
/// flashed, that is warned of, and a missing table then falls back to raw
/// output instead of failing.
pub fn log_setup(has_channel: bool, structured: bool, has_table: bool, reset: bool, no_flash: bool) -> (r:
    Result<LogSetup, LogSetupError>)
    ensures
        r == log_setup_of(has_channel, structured, has_table, reset, no_flash),
{
    let use_structured = has_channel && structured;
    let warn = use_structured && (!reset || no_flash);
    if use_structured && !warn && !has_table {
        return Err(LogSetupError::MissingLogTable);
    }
    let mode = if !has_channel {
        LogMode::NoChannel
    } else if use_structured && has_table {
        LogMode::Structured
    } else {
        LogMode::Raw
    };
    Ok(LogSetup { mode, warn_stale: warn })
}

} // verus!
