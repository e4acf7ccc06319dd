//! Host-side runner logic for Cortex-M firmware, verified with Verus.
//!
//! - `elf`: what the runner reads of the firmware image.
//! - `target_info`: where the stack lives on the target.
//! - `canary`: painting the stack and measuring how much of it was used.
//! - `rtt`: the log channel's mode flags and attaching to its control block.
//! - `poll`: the loop that drains logs while the target runs.
//! - `unwind`: virtual unwinding of the halted target's call stack.
//! - `backtrace`: when and how much of a backtrace is printed, and the outcome.
//! - `paths`: shortening of source paths for display.
//! - `controller`: the run's plan and the diagnosis of the halted target.
//! - `cli`: the options and the command they select.
//! - `gdb`: register numbering of the GDB remote protocol.

pub mod backtrace;
pub mod canary;
pub mod cli;
pub mod controller;
pub mod elf;
pub mod gdb;
pub mod paths;
pub mod poll;
pub mod rtt;
pub mod target_info;
pub mod text;
pub mod unwind;
