//! Virtual unwinding of the halted target's call stack. The unwinder is a
//! state machine: the caller evaluates the call-frame information of the
//! current frame and reads target memory, and hands the results in; the
//! unwinder decides what comes next and records the frames.
use vstd::prelude::*;

use crate::elf::{clear_thumb_bit, thumb_cleared};

verus! {

/// The link-register value that marks the outermost frame.
pub const LR_END: u32 = 0xFFFF_FFFF;

/// The bits that all `EXC_RETURN` values have set.
pub const EXC_RETURN_MARKER: u32 = 0xFFFF_FFE0;

/// Bit of `EXC_RETURN` that is clear when the exception frame holds FPU registers.
pub const EXC_RETURN_FTYPE: u32 = 0x10;

/// Size of a basic exception frame: r0-r3, r12, lr, pc, xPSR.
pub const BASIC_FRAME_SIZE: u32 = 0x20;

/// Size of an exception frame that also holds s0-s15 and FPSCR.
pub const EXTENDED_FRAME_SIZE: u32 = 0x68;

/// `lr` holds an `EXC_RETURN` value: the function was entered by an exception.
pub open spec fn is_exc_return(lr: u32) -> bool {
    lr & EXC_RETURN_MARKER == EXC_RETURN_MARKER
}

/// Size of the exception frame that an `EXC_RETURN` value announces.
pub open spec fn exception_frame_size(lr: u32) -> u32 {
    if lr & EXC_RETURN_FTYPE == 0 {
        EXTENDED_FRAME_SIZE
    } else {
        BASIC_FRAME_SIZE
    }
}

/// The exception that was being handled.
#[derive(PartialEq, Eq, Structural, Clone, Copy, Debug)]
pub enum ExceptionKind {
    Nmi,
    HardFault,
    MemManage,
    BusFault,
    UsageFault,
    SvCall,
    DebugMonitor,
    PendSv,
    SysTick,
    /// External interrupt, by its number.
    Interrupt(u32),
    /// A reserved exception number.
    Reserved(u32),
}

/// The exception of an exception number (`None`: unknown, taken as a hard fault).
pub open spec fn exception_kind_of(n: Option<u32>) -> ExceptionKind {
    match n {
        None => ExceptionKind::HardFault,
        Some(n) => if n == 2 {
            ExceptionKind::Nmi
        } else if n == 3 {
            ExceptionKind::HardFault
        } else if n == 4 {
            ExceptionKind::MemManage
        } else if n == 5 {
            ExceptionKind::BusFault
        } else if n == 6 {
            ExceptionKind::UsageFault
        } else if n == 11 {
            ExceptionKind::SvCall
        } else if n == 12 {
            ExceptionKind::DebugMonitor
        } else if n == 14 {
            ExceptionKind::PendSv
        } else if n == 15 {
            ExceptionKind::SysTick
        } else if n >= 16 {
            ExceptionKind::Interrupt((n - 16) as u32)
        } else {
            ExceptionKind::Reserved(n)
        },
    }
}

pub fn exception_kind(n: Option<u32>) -> (r: ExceptionKind)
    ensures
        r == exception_kind_of(n),
{
    match n {
        None => ExceptionKind::HardFault,
        Some(n) => if n == 2 {
            ExceptionKind::Nmi
        } else if n == 3 {
            ExceptionKind::HardFault
        } else if n == 4 {
            ExceptionKind::MemManage
        } else if n == 5 {
            ExceptionKind::BusFault
        } else if n == 6 {
            ExceptionKind::UsageFault
        } else if n == 11 {
            ExceptionKind::SvCall
        } else if n == 12 {
            ExceptionKind::DebugMonitor
        } else if n == 14 {
            ExceptionKind::PendSv
        } else if n == 15 {
            ExceptionKind::SysTick
        } else if n >= 16 {
            ExceptionKind::Interrupt(n - 16)
        } else {
            ExceptionKind::Reserved(n)
        },
    }
}

/// A frame of the unwound stack, innermost first, with the stack pointer it had.
#[derive(PartialEq, Eq, Structural, Clone, Copy, Debug)]
pub enum RawFrame {
    Subroutine { pc: u32, sp: u32 },
    Exception { kind: ExceptionKind, sp: u32 },
}

impl RawFrame {
    pub open spec fn sp_of(self) -> u32 {
        match self {
            RawFrame::Subroutine { sp, .. } => sp,
            RawFrame::Exception { sp, .. } => sp,
        }
    }

    pub fn is_exception(&self) -> (r: bool)
        ensures
            r == (*self is Exception),
    {
        match self {
            RawFrame::Subroutine { .. } => false,
            RawFrame::Exception { .. } => true,
        }
    }
}

/// What the unwinder needs next.
#[derive(PartialEq, Eq, Structural, Clone, Copy, Debug)]
pub enum UnwindAction {
    /// Evaluate the call-frame information at `pc` with stack pointer `sp`
    /// and link register `lr`, and hand in the result with `on_cfi`.
    EvaluateCfi { pc: u32, sp: u32, lr: u32 },
    /// Read the exception frame of `size` bytes at `sp` and hand in its
    /// stacked pc, lr and xPSR with `on_exception_frame`.
    ReadExceptionFrame { sp: u32, size: u32 },
    /// Unwinding is over.
    Finished,
}

/// The call-frame information evaluated for the current frame.
#[derive(PartialEq, Eq, Structural, Clone, Copy, Debug)]
pub struct CfiResult {
    /// The canonical frame address: the caller's stack pointer.
    pub cfa: u32,
    /// The return address: the saved link register, or the current one
    /// where the function did not save it.
    pub lr: u32,
}

/// The registers an exception frame holds that unwinding needs.
#[derive(PartialEq, Eq, Structural, Clone, Copy, Debug)]
pub struct StackedFrame {
    pub pc: u32,
    pub lr: u32,
    pub xpsr: u32,
}

/// Fixed parameters of an unwinding.
#[derive(PartialEq, Eq, Structural, Clone, Copy, Debug)]
pub struct UnwindLimits {
    /// The initial stack pointer: frames above it are not part of the program's stack.
    pub stack_start: u32,
    /// Address range `[reset_start, reset_end)` of the reset handler, the outermost function.
    pub reset_start: u32,
    pub reset_end: u32,
    /// Most frames recorded.
    pub max_frames: usize,
}

/// State of an unwinding.
pub struct Unwinder {
    pub pc: u32,
    pub sp: u32,
    pub lr: u32,
    /// The exception number being handled, where known.
    pub exception_number: Option<u32>,
    pub frames: Vec<RawFrame>,
    pub limits: UnwindLimits,
    /// Unwinding stopped early because the stack made no sense.
    pub corrupted: bool,
    pub done: bool,
    /// Waiting for an exception frame of this size.
    pub pending_frame: Option<u32>,
}

/// The stack pointers of `frames` never decrease from one frame to the next.
pub open spec fn sp_monotone(frames: Seq<RawFrame>) -> bool {
    forall|i: int, j: int| 0 <= i <= j < frames.len() ==> #[trigger] frames[i].sp_of() <= #[trigger] frames[j].sp_of()
}

impl Unwinder {
    /// Frames grow outwards: stack pointers never decrease, and the current
    /// one is at least that of the last frame recorded.
    pub open spec fn wf(&self) -> bool {
        &&& sp_monotone(self.frames@)
        &&& forall|i: int| 0 <= i < self.frames@.len() ==> #[trigger] self.frames@[i].sp_of() <= self.limits.stack_start
        &&& self.frames@.len() > 0 ==> self.frames@.last().sp_of() <= self.sp
        &&& self.frames@.len() <= self.limits.max_frames
        &&& !self.done && self.pending_frame is None ==> self.frames@.len() < self.limits.max_frames
        &&& self.limits.max_frames >= 1
        &&& self.corrupted ==> self.done
    }

    /// The action that the state asks for.
    pub open spec fn action_spec(&self) -> UnwindAction {
        if self.done {
            UnwindAction::Finished
        } else {
            match self.pending_frame {
                Some(size) => UnwindAction::ReadExceptionFrame { sp: self.sp, size },
                None => UnwindAction::EvaluateCfi { pc: self.pc, sp: self.sp, lr: self.lr },
            }
        }
    }

    /// Starts at the halted core's registers; `exception_number` is the
    /// exception being handled, where the core is in handler mode.
    pub fn new(pc: u32, sp: u32, lr: u32, exception_number: Option<u32>, limits: UnwindLimits) -> (r:
        Unwinder)
        requires
            limits.max_frames >= 1,
        ensures
            r.wf(),
            r.frames@.len() == 0,
            r.pc == pc && r.sp == sp && r.lr == lr,
            r.exception_number == exception_number,
            r.limits == limits,
            !r.done && !r.corrupted && r.pending_frame is None,
    {
        Unwinder {
            pc,
            sp,
            lr,
            exception_number,
            frames: Vec::new(),
            limits,
            corrupted: false,
            done: false,
            pending_frame: None,
        }
    }

    pub fn action(&self) -> (r: UnwindAction)
        ensures
            r == self.action_spec(),
    {
        if self.done {
            UnwindAction::Finished
        } else {
            match self.pending_frame {
                Some(size) => UnwindAction::ReadExceptionFrame { sp: self.sp, size },
                None => UnwindAction::EvaluateCfi { pc: self.pc, sp: self.sp, lr: self.lr },
            }
        }
    }

    fn finish(&mut self, corrupted: bool)
        ensures
            final(self).done,
            final(self).corrupted == corrupted,
            final(self).frames == old(self).frames,
            final(self).pc == old(self).pc && final(self).sp == old(self).sp,
            final(self).lr == old(self).lr,
            final(self).limits == old(self).limits,
            final(self).pending_frame == old(self).pending_frame,
            final(self).exception_number == old(self).exception_number,
    {
        self.done = true;
        self.corrupted = corrupted;
    }

    /// Records the current frame and steps to its caller with the evaluated
    /// call-frame information (`None`: there is none for this pc).
    ///
    /// Stops at the frame limit, in the reset handler, at the end-of-stack
    /// marker, and above the initial stack pointer. Stops as corrupted where
    /// there is no information, where the caller's stack pointer would lie
    /// below the current one, where the step makes no progress, and where the
    /// return address lacks the Thumb bit. An `EXC_RETURN` return address
    /// records an exception frame and asks for the stacked registers.
    pub fn on_cfi(&mut self, row: Option<CfiResult>) -> (r: UnwindAction)
        requires
            old(self).wf(),
            !old(self).done,
            old(self).pending_frame is None,
        ensures
            final(self).wf(),
            r == final(self).action_spec(),
            final(self).limits == old(self).limits,
            old(self).sp > old(self).limits.stack_start ==> final(self).done
                && !final(self).corrupted && final(self).frames == old(self).frames,
            old(self).sp <= old(self).limits.stack_start ==> final(self).frames@.len() > 0,
            old(self).sp <= old(self).limits.stack_start ==> final(self).frames@.subrange(0, old(self).frames@.len() as int)
                == old(self).frames@,
            old(self).sp <= old(self).limits.stack_start ==> final(self).frames@[old(self).frames@.len() as int]
                == (RawFrame::Subroutine { pc: old(self).pc, sp: old(self).sp }),
            old(self).sp <= old(self).limits.stack_start && row is None ==> final(self).done && final(self).corrupted,
            old(self).sp <= old(self).limits.stack_start && (row matches Some(c) && c.cfa < old(self).sp) ==> final(self).done
                && final(self).corrupted,
            !final(self).done ==> final(self).sp >= old(self).sp && final(self).sp
                <= final(self).limits.stack_start,
            old(self).sp <= old(self).limits.stack_start ==> (row matches Some(c) ==> (c.cfa >= old(self).sp ==> ({
                let n = old(self).frames@.len() + 1;
                let in_reset = old(self).limits.reset_start <= old(self).pc
                    < old(self).limits.reset_end;
                let stuck = c.cfa == old(self).sp && c.lr == old(self).pc;
                &&& (n >= old(self).limits.max_frames || in_reset || c.lr == LR_END)
                    ==> final(self).done && !final(self).corrupted
                &&& (n < old(self).limits.max_frames && !in_reset && c.lr != LR_END && stuck)
                    ==> final(self).done && final(self).corrupted
                &&& (n < old(self).limits.max_frames && !in_reset && c.lr != LR_END && !stuck)
                    ==> (final(self).sp == c.cfa && final(self).lr == c.lr)
                &&& (n < old(self).limits.max_frames && !in_reset && c.lr != LR_END && !stuck
                    && c.cfa <= old(self).limits.stack_start && !is_exc_return(c.lr) && c.lr & 1
                    == 1) ==> !final(self).done && final(self).pc == c.lr & 0xffff_fffeu32
                    && final(self).frames@.len() == n
                &&& (n < old(self).limits.max_frames && !in_reset && c.lr != LR_END && !stuck
                    && c.cfa <= old(self).limits.stack_start && !is_exc_return(c.lr) && c.lr & 1
                    == 0) ==> final(self).done && final(self).corrupted
                &&& (n < old(self).limits.max_frames && !in_reset && c.lr != LR_END && !stuck
                    && c.cfa <= old(self).limits.stack_start && is_exc_return(c.lr)) ==> (
                !final(self).done && final(self).pending_frame == Some(exception_frame_size(c.lr))
                    && final(self).frames@ == old(self).frames@.push(
                    RawFrame::Subroutine { pc: old(self).pc, sp: old(self).sp },
                ).push(
                    RawFrame::Exception {
                        kind: exception_kind_of(old(self).exception_number),
                        sp: c.cfa,
                    },
                ))
                &&& (n < old(self).limits.max_frames && !in_reset && c.lr != LR_END && !stuck
                    && c.cfa > old(self).limits.stack_start) ==> final(self).done
                    && !final(self).corrupted
            }))),
    {
        if self.sp > self.limits.stack_start {
            self.finish(false);
            return self.action();
        }
        let ghost old_frames = self.frames@;
        self.frames.push(RawFrame::Subroutine { pc: self.pc, sp: self.sp });
        assert(self.frames@.subrange(0, old_frames.len() as int) == old_frames);
        let row = match row {
            Some(row) => row,
            None => {
                self.finish(true);
                return self.action();
            },
        };
        if row.cfa < self.sp {
            self.finish(true);
            return self.action();
        }
        if self.frames.len() >= self.limits.max_frames {
            self.finish(false);
            return self.action();
        }
        if self.limits.reset_start <= self.pc && self.pc < self.limits.reset_end {
            self.finish(false);
            return self.action();
        }
        if row.lr == LR_END {
            self.finish(false);
            return self.action();
        }
        if row.cfa == self.sp && row.lr == self.pc {
            self.finish(true);
            return self.action();
        }
        self.sp = row.cfa;
        self.lr = row.lr;
        if self.sp > self.limits.stack_start {
            self.finish(false);
            return self.action();
        }
        if row.lr & EXC_RETURN_MARKER == EXC_RETURN_MARKER {
            if self.frames.len() >= self.limits.max_frames {
                self.finish(false);
                return self.action();
            }
            let kind = exception_kind(self.exception_number);
            self.frames.push(RawFrame::Exception { kind, sp: self.sp });
            let size = if row.lr & EXC_RETURN_FTYPE == 0 {
                EXTENDED_FRAME_SIZE
            } else {
                BASIC_FRAME_SIZE
            };
            self.pending_frame = Some(size);
            return self.action();
        }
        if row.lr & 1 == 0 {
            self.finish(true);
            return self.action();
        }
        self.pc = row.lr & 0xffff_fffe;
        self.action()
    }

    /// Steps over an exception frame with the registers stacked in it
    /// (`None`: it could not be read). Execution continues at the stacked pc
    /// with the stack pointer above the frame.
    pub fn on_exception_frame(&mut self, stacked: Option<StackedFrame>) -> (r: UnwindAction)
        requires
            old(self).wf(),
            !old(self).done,
            old(self).pending_frame is Some,
        ensures
            final(self).wf(),
            r == final(self).action_spec(),
            final(self).frames == old(self).frames,
            final(self).limits == old(self).limits,
            final(self).pending_frame is None,
            stacked is None ==> final(self).done && final(self).corrupted,
            stacked is Some && old(self).sp + old(self).pending_frame->Some_0 > u32::MAX
                ==> final(self).done && final(self).corrupted,
            stacked matches Some(s) ==> (old(self).sp + old(self).pending_frame->Some_0 <= u32::MAX
                ==> ({
                let size = old(self).pending_frame->Some_0;
                let number = s.xpsr & 0x1ff;
                &&& final(self).pc == s.pc
                &&& final(self).lr == s.lr
                &&& final(self).sp == old(self).sp + size
                &&& final(self).exception_number == (if number == 0 {
                    None
                } else {
                    Some(number)
                })
                &&& !final(self).corrupted
                &&& final(self).done == (old(self).frames@.len() >= old(self).limits.max_frames
                    || old(self).sp + size > old(self).limits.stack_start)
            })),
    {
        let size = match self.pending_frame {
            Some(size) => size,
            None => 0,
        };
        self.pending_frame = None;
        let stacked = match stacked {
            Some(s) => s,
            None => {
                self.finish(true);
                return self.action();
            },
        };
        if self.sp > u32::MAX - size {
            self.finish(true);
            return self.action();
        }
        self.sp = self.sp + size;
        self.pc = stacked.pc;
        self.lr = stacked.lr;
        let number = stacked.xpsr & 0x1ff;
        self.exception_number = if number == 0 {
            None
        } else {
            Some(number)
        };
        if self.frames.len() >= self.limits.max_frames || self.sp > self.limits.stack_start {
            self.finish(false);
        }
        self.action()
    }

    /// Whether any recorded frame is an exception frame.
    pub fn contains_exception(&self) -> (r: bool)
        ensures
            r == exists|i: int| 0 <= i < self.frames@.len() && #[trigger] self.frames@[i] is Exception,
    {
        let mut i: usize = 0;
        while i < self.frames.len()
            invariant
                i <= self.frames@.len(),
                forall|j: int| 0 <= j < i ==> !(#[trigger] self.frames@[j] is Exception),
            decreases self.frames@.len() - i,
        {
            if self.frames[i].is_exception() {
                return true;
            }
            i += 1;
        }
        false
    }
}

/// `base + offset` as a 32-bit address: the canonical frame address from a
/// register and an offset, or a saved register's address from the canonical
/// frame address. `None` where it leaves the 32-bit address space.
pub fn offset_address(base: u32, offset: i64) -> (r: Option<u32>)
    ensures
        0 <= base + offset <= u32::MAX ==> r == Some((base + offset) as u32),
        !(0 <= base + offset <= u32::MAX) ==> r is None,
{
    let a = base as i64;
    if offset > 0x1_0000_0000 || offset < -0x1_0000_0000 {
        return None;
    }
    let sum = a + offset;
    if sum < 0 || sum > 0xffff_ffff {
        None
    } else {
        Some(sum as u32)
    }
}

/// The address range `[start, end)` of the reset handler, from its address
/// in the vector table (Thumb bit cleared) and its symbol's size; the end
/// saturates at the top of the address space.
pub fn reset_handler_range(reset: u32, size: u64) -> (r: (u32, u32))
    ensures
        r.0 == thumb_cleared(reset),
        r.1 == (if r.0 + size > u32::MAX {
            u32::MAX as int
        } else {
            r.0 + size
        }),
{
    let start = clear_thumb_bit(reset);
    let end = if size > (u32::MAX - start) as u64 {
        u32::MAX
    } else {
        start + size as u32
    };
    (start, end)
}

/// Unwinding is monotone: in every well-formed unwinder state, each frame's
/// stack pointer is at least that of the frame before it (parents have
/// higher stack pointers), and none lies above the initial stack pointer.
pub proof fn lemma_unwinding_monotone(u: &Unwinder, i: int)
    requires
        u.wf(),
        0 <= i,
        i + 1 < u.frames@.len(),
    ensures
        u.frames@[i].sp_of() <= u.frames@[i + 1].sp_of(),
        u.frames@[i + 1].sp_of() <= u.limits.stack_start,
{
}

} // verus!
