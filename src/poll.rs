//! Decisions of the poll loop that drains the log channel while the target runs.
use vstd::prelude::*;

verus! {

/// Up to this many bytes are drained from the log channel per iteration.
pub const READ_BUFFER_SIZE: usize = 1024;

/// State of the poll loop: whether the previous iteration saw the core halted.
#[derive(PartialEq, Eq, Structural, Clone, Copy, Debug)]
pub struct PollLoop {
    pub was_halted: bool,
}

/// The loop's step on one halt observation: `None` where it stops, else the new state.
pub open spec fn halt_step(was_halted: bool, halted: bool) -> Option<bool> {
    if halted && was_halted {
        None
    } else {
        Some(halted)
    }
}

impl PollLoop {
    pub fn new() -> (r: PollLoop)
        ensures
            r == PollLoop::new_spec(),
    {
        PollLoop { was_halted: false }
    }

    /// Checked at the top of each iteration: the loop ends once SIGINT was received.
    pub fn interrupted(&self, sigint: bool) -> (r: bool)
        ensures
            r == sigint,
    {
        sigint
    }

    /// Records whether the core is halted, after the channel was drained.
    /// Returns `true` where the loop ends: the core was seen halted twice in
    /// a row, so no byte written just before the halt is missed.
    pub fn halt_observed(&mut self, halted: bool) -> (stop: bool)
        ensures
            stop == (halt_step(old(self).was_halted, halted) is None),
            !stop ==> Some(final(self).was_halted) == halt_step(old(self).was_halted, halted),
    {
        let stop = halted && self.was_halted;
        self.was_halted = halted;
        stop
    }
}

/// The iteration in which the loop ends, from iteration `i` on with state
/// `was_halted`: at iteration `k` it first checks `sigints[k]`, then
/// observes `halts[k]`. `None` where it runs past the observations.
pub open spec fn poll_stop(sigints: Seq<bool>, halts: Seq<bool>, i: int, was_halted: bool) -> Option<int>
    decreases halts.len() - i,
{
    if i < 0 || i >= halts.len() || i >= sigints.len() {
        None
    } else if sigints[i] {
        Some(i)
    } else {
        match halt_step(was_halted, halts[i]) {
            None => Some(i),
            Some(w) => poll_stop(sigints, halts, i + 1, w),
        }
    }
}

proof fn lemma_poll_stop(sigints: Seq<bool>, halts: Seq<bool>, i: int, was_halted: bool)
    requires
        0 <= i,
        sigints.len() == halts.len(),
        i > 0 ==> was_halted == halts[i - 1],
        i == 0 ==> !was_halted,
    ensures
        forall|k: int|
            i <= k < halts.len() && #[trigger] sigints[k] ==> (poll_stop(
                sigints,
                halts,
                i,
                was_halted,
            ) matches Some(j) && j <= k),
        forall|k: int|
            i <= k < halts.len() && k >= 1 && halts[k - 1] && #[trigger] halts[k] ==> (poll_stop(
                sigints,
                halts,
                i,
                was_halted,
            ) matches Some(j) && j <= k),
        poll_stop(sigints, halts, i, was_halted) matches Some(j) ==> (i <= j < halts.len() && (
        sigints[j] || (j >= 1 && halts[j - 1] && halts[j]))),
    decreases halts.len() - i,
{
    if i < halts.len() {
        if !sigints[i] && halt_step(was_halted, halts[i]) is Some {
            lemma_poll_stop(sigints, halts, i + 1, halts[i]);
        }
    }
}

/// The poll loop ends once SIGINT is received or the core is seen halted in
/// two consecutive iterations, and in no other case: a single halt
/// observation never ends it.
pub proof fn lemma_poll_loop_termination(sigints: Seq<bool>, halts: Seq<bool>)
    requires
        sigints.len() == halts.len(),
    ensures
        forall|k: int|
            0 <= k < halts.len() && #[trigger] sigints[k] ==> (poll_stop(
                sigints,
                halts,
                0,
                PollLoop::new_spec().was_halted,
            ) matches Some(j) && j <= k),
        forall|k: int|
            1 <= k < halts.len() && halts[k - 1] && #[trigger] halts[k] ==> (poll_stop(
                sigints,
                halts,
                0,
                PollLoop::new_spec().was_halted,
            ) matches Some(j) && j <= k),
        poll_stop(sigints, halts, 0, PollLoop::new_spec().was_halted) matches Some(j) ==> (sigints[j] || (
        j >= 1 && halts[j - 1] && halts[j])),
{
    lemma_poll_stop(sigints, halts, 0, false);
}

impl PollLoop {
    /// The state the loop starts in.
    pub open spec fn new_spec() -> PollLoop {
        PollLoop { was_halted: false }
    }
}

/// What the decoder reported.
#[derive(PartialEq, Eq, Structural, Clone, Copy, Debug)]
pub enum DecodeResult {
    /// A complete frame.
    Frame,
    /// More bytes are needed.
    UnexpectedEof,
    /// The bytes do not form a frame.
    Malformed,
}

/// What the decode loop does next.
#[derive(PartialEq, Eq, Structural, Clone, Copy, Debug)]
pub enum DecodeAction {
    /// Hand the frame to the logger and decode again.
    Forward,
    /// Wait for more bytes.
    Stop,
    /// Drop the malformed frame and decode again.
    Skip,
    /// End the run with a decode error.
    Fail,
}

/// The decode loop's decision: a malformed frame is skipped where the
/// encoding can recover, and is fatal where it cannot.
pub fn decode_action(result: DecodeResult, can_recover: bool) -> (r: DecodeAction)
    ensures
        r == (match result {
            DecodeResult::Frame => DecodeAction::Forward,
            DecodeResult::UnexpectedEof => DecodeAction::Stop,
            DecodeResult::Malformed => if can_recover {
                DecodeAction::Skip
            } else {
                DecodeAction::Fail
            },
        }),
{
    match result {
        DecodeResult::Frame => DecodeAction::Forward,
        DecodeResult::UnexpectedEof => DecodeAction::Stop,
        DecodeResult::Malformed => if can_recover {
            DecodeAction::Skip
        } else {
            DecodeAction::Fail
        },
    }
}

} // verus!
