//! The stack canary: the unused stack is painted with a known byte before the
//! program runs, and the lowest byte that no longer holds it tells how much
//! stack the program used at least.
//!
//! ```text
//! +--------+ -> range end (initial stack pointer)
//! | stack  | (grows downwards)
//! +--------+
//! | canary |
//! +--------+ -> range start
//! | static |
//! +--------+ -> lowest RAM address
//! ```
use vstd::prelude::*;

use crate::target_info::StackInfo;

pub mod measure_subroutine;
pub mod paint_subroutine;

verus! {

/// The byte the stack is painted with.
pub const CANARY_U8: u8 = 0xAA;

/// Four canary bytes as one word.
pub const CANARY_U32: u32 = 0xAAAA_AAAA;

/// Byte `j` (0 to 3) of a little-endian word.
pub open spec fn word_byte(w: u32, j: int) -> u32 {
    (w >> ((8 * j) as u32)) & 0xff
}

/// The lowest index from `i` on whose byte differs from the canary.
pub open spec fn first_touched_from(mem: Seq<u8>, i: int) -> Option<int>
    decreases mem.len() - i,
{
    if i < 0 || i >= mem.len() {
        None
    } else if mem[i] != CANARY_U8 {
        Some(i)
    } else {
        first_touched_from(mem, i + 1)
    }
}

/// Where the canary is placed.
#[derive(Clone, Copy, Debug)]
pub struct Canary {
    addr: u32,
    data_below_stack: bool,
    size: u32,
}

/// How much stack a run used at least, as the canary measured it.
#[derive(PartialEq, Eq, Structural, Clone, Copy, Debug)]
pub struct StackUsage {
    /// Bytes between the initial stack pointer and the lowest touched byte.
    pub used: u32,
    /// Size of the painted region in bytes.
    pub size: u32,
    /// More than 90% of the region was used.
    pub near_limit: bool,
    /// Near the limit with static data below the stack: it may have been overwritten.
    pub overflow_likely: bool,
}

/// A register set-up that runs a subroutine placed at `load_addr`.
pub struct SubroutineCall {
    pub code: Vec<u8>,
    pub load_addr: u32,
    pub r0: u32,
    pub r1: u32,
    pub r2: u32,
}

/// `used` is more than 90% of `size`.
pub open spec fn above_ninety_percent(used: int, size: int) -> bool {
    used * 10 > size * 9
}

impl Canary {
    pub closed spec fn spec_addr(&self) -> u32 {
        self.addr
    }

    pub closed spec fn spec_size(&self) -> u32 {
        self.size
    }

    pub closed spec fn spec_data_below_stack(&self) -> bool {
        self.data_below_stack
    }

    /// Aligned, and large enough for both subroutines.
    pub open spec fn wf(&self) -> bool {
        &&& self.spec_addr() % 4 == 0
        &&& self.spec_size() % 4 == 0
        &&& self.spec_size() >= measure_subroutine::code().len()
        &&& self.spec_size() >= paint_subroutine::code().len()
        &&& self.spec_addr() + self.spec_size() <= u32::MAX
    }

    pub fn addr(&self) -> (r: u32)
        ensures
            r == self.spec_addr(),
    {
        self.addr
    }

    pub fn size(&self) -> (r: u32)
        ensures
            r == self.spec_size(),
    {
        self.size
    }

    pub fn data_below_stack(&self) -> (r: bool)
        ensures
            r == self.spec_data_below_stack(),
    {
        self.data_below_stack
    }

    /// Decides if and where the canary is placed: over the whole stack
    /// region, unless none is known, the program uses a heap, or a
    /// subroutine does not fit in the region.
    pub fn prepare(uses_heap: bool, stack_info: &Option<StackInfo>) -> (r: Option<Canary>)
        requires
            stack_info matches Some(s) ==> s.range_start <= s.range_end && s.range_start % 4 == 0
                && (s.range_end - s.range_start) % 4 == 0,
        ensures
            r is Some <==> (stack_info matches Some(s) && !uses_heap && s.range_end - s.range_start
                >= measure_subroutine::code().len()),
            r matches Some(c) ==> {
                &&& c.wf()
                &&& stack_info matches Some(s)
                &&& c.spec_addr() == s.range_start
                &&& c.spec_size() == s.range_end - s.range_start
                &&& c.spec_data_below_stack() == s.data_below_stack
            },
    {
        let stack_info = match stack_info {
            Some(s) => s,
            None => return None,
        };
        if uses_heap {
            return None;
        }
        let stack_addr = stack_info.range_start;
        let stack_size = stack_info.range_end - stack_addr;
        if stack_size < paint_subroutine::size() || stack_size < measure_subroutine::size() {
            return None;
        }
        Some(Canary { addr: stack_addr, data_below_stack: stack_info.data_below_stack, size: stack_size })
    }

    /// Register set-up for a subroutine placed at the start of the region:
    /// it works on `[addr + code length, addr + size)`, so that it does not
    /// overwrite itself, with the canary word as pattern.
    fn call(&self, code: Vec<u8>) -> (r: SubroutineCall)
        requires
            self.wf(),
            code@.len() <= self.spec_size(),
        ensures
            r.code@ == code@,
            r.load_addr == self.spec_addr(),
            r.r0 == self.spec_addr() + code@.len(),
            r.r1 == self.spec_addr() + self.spec_size(),
            r.r2 == CANARY_U32,
    {
        let n = code.len() as u32;
        SubroutineCall {
            code,
            load_addr: self.addr,
            r0: self.addr + n,
            r1: self.addr + self.size,
            r2: CANARY_U32,
        }
    }

    /// How to run the paint subroutine.
    pub fn paint_call(&self) -> (r: SubroutineCall)
        requires
            self.wf(),
        ensures
            r.code@ == paint_subroutine::code(),
            r.load_addr == self.spec_addr(),
            r.r0 == self.spec_addr() + paint_subroutine::code().len(),
            r.r1 == self.spec_addr() + self.spec_size(),
            r.r2 == CANARY_U32,
    {
        self.call(paint_subroutine::subroutine())
    }

    /// How to run the measure subroutine.
    pub fn measure_call(&self) -> (r: SubroutineCall)
        requires
            self.wf(),
        ensures
            r.code@ == measure_subroutine::code(),
            r.load_addr == self.spec_addr(),
            r.r0 == self.spec_addr() + measure_subroutine::code().len(),
            r.r1 == self.spec_addr() + self.spec_size(),
            r.r2 == CANARY_U32,
    {
        self.call(measure_subroutine::subroutine())
    }

    /// The bytes that overwrite the paint subroutine once it has run, so that
    /// the whole region holds the canary.
    pub fn overwrite_bytes() -> (r: Vec<u8>)
        ensures
            r@.len() == paint_subroutine::code().len(),
            forall|i: int| 0 <= i < r@.len() ==> r@[i] == CANARY_U8,
    {
        let n = paint_subroutine::size() as usize;
        let mut r: Vec<u8> = Vec::new();
        while r.len() < n
            invariant
                n == 12,
                r@.len() <= n,
                forall|i: int| 0 <= i < r@.len() ==> r@[i] == CANARY_U8,
            decreases n - r@.len(),
        {
            r.push(CANARY_U8);
        }
        r
    }

    /// The stack usage, from the lowest touched address (`None`: untouched).
    pub fn measure(self, initial_stack_pointer: u32, touched_address: Option<u32>) -> (r:
        StackUsage)
        requires
            self.wf(),
            touched_address matches Some(t) ==> t <= initial_stack_pointer,
        ensures
            r.used == stack_usage(initial_stack_pointer, touched_address),
            r.size == self.spec_size(),
            r.near_limit == above_ninety_percent(r.used as int, r.size as int),
            r.overflow_likely == (r.near_limit && self.spec_data_below_stack()),
    {
        let used = match touched_address {
            Some(t) => initial_stack_pointer - t,
            None => 0,
        };
        let near_limit = (used as u64) * 10 > (self.size as u64) * 9;
        StackUsage {
            used,
            size: self.size,
            near_limit,
            overflow_likely: near_limit && self.data_below_stack,
        }
    }
}

/// Stack use that a touched address stands for.
pub open spec fn stack_usage(initial_stack_pointer: u32, touched_address: Option<u32>) -> u32 {
    match touched_address {
        Some(t) => (initial_stack_pointer - t) as u32,
        None => 0,
    }
}


/// The word of `mem` whose first byte is at `i`, read little-endian.
pub open spec fn le_word(mem: Seq<u8>, i: int) -> u32 {
    (mem[i] as u32) | ((mem[i + 1] as u32) << 8u32) | ((mem[i + 2] as u32) << 16u32) | ((mem[i
        + 3] as u32) << 24u32)
}

/// Some byte of the word at `i` differs from the canary.
pub open spec fn word_touched(mem: Seq<u8>, i: int) -> bool {
    mem[i] != CANARY_U8 || mem[i + 1] != CANARY_U8 || mem[i + 2] != CANARY_U8 || mem[i + 3]
        != CANARY_U8
}

/// What the measure subroutine leaves in `r0` when it runs over a region
/// starting at `addr` whose bytes are `mem`, with `r0 = addr + i` and
/// `r1 = addr + end`: the address of the first touched word, or `0`.
pub open spec fn measure_register_result(mem: Seq<u8>, addr: int, i: int, end: int) -> int
    decreases end - i + 4,
{
    if i >= end {
        0
    } else if word_touched(mem, i) {
        addr + i
    } else {
        measure_register_result(mem, addr, i + 4, end)
    }
}

/// The touched address that measuring finds in a painted region starting at
/// `addr` whose bytes are `mem`: first the window that the measure subroutine
/// would occupy is searched through the probe, then the subroutine scans the
/// rest and the word it points at is searched for its lowest touched byte.
pub open spec fn measured_touch(mem: Seq<u8>, addr: u32) -> Option<u32> {
    let sub = measure_subroutine::code().len() as int;
    match first_touched_from(mem.subrange(0, sub), 0) {
        Some(k) => Some((addr + k) as u32),
        None => {
            let r0 = measure_register_result(mem, addr as int, sub, mem.len() as int);
            if r0 == 0 {
                None
            } else {
                Some((r0 + measure_subroutine::first_touched_byte(le_word(mem, r0 - addr)))
                    as u32)
            }
        },
    }
}

proof fn lemma_first_touched_none(mem: Seq<u8>, i: int)
    requires
        0 <= i <= mem.len(),
    ensures
        first_touched_from(mem, i) is None <==> (forall|j: int|
            i <= j < mem.len() ==> mem[j] == CANARY_U8),
        first_touched_from(mem, i) matches Some(k) ==> i <= k < mem.len() && mem[k] != CANARY_U8,
        first_touched_from(mem, i) matches Some(k) ==> forall|j: int|
            i <= j < k ==> mem[j] == CANARY_U8,
    decreases mem.len() - i,
{
    if i < mem.len() {
        lemma_first_touched_none(mem, i + 1);
    }
}

/// The measure subroutine stops at a touched word with untouched bytes before it.
pub open spec fn register_result_at(mem: Seq<u8>, addr: int, i: int, end: int, j: int) -> bool {
    &&& i <= j
    &&& j + 4 <= end
    &&& measure_register_result(mem, addr, i, end) == addr + j
    &&& word_touched(mem, j)
    &&& forall|k: int| i <= k < j ==> mem[k] == CANARY_U8
}

proof fn lemma_measure_register_result(mem: Seq<u8>, addr: int, i: int, end: int)
    requires
        0 < addr + i,
        0 <= i <= end,
        end == mem.len(),
        (end - i) % 4 == 0,
    ensures
        measure_register_result(mem, addr, i, end) == 0 <==> (forall|j: int|
            i <= j < end ==> mem[j] == CANARY_U8),
        measure_register_result(mem, addr, i, end) != 0 ==> exists|j: int|
            #[trigger] register_result_at(mem, addr, i, end, j),
    decreases end - i,
{
    if i < end {
        lemma_measure_register_result(mem, addr, i + 4, end);
        if !word_touched(mem, i) {
            assert forall|j: int| i <= j < end && (forall|j2: int|
                i + 4 <= j2 < end ==> mem[j2] == CANARY_U8) implies mem[j] == CANARY_U8 by {
                if j >= i + 4 {
                    assert(mem[j] == CANARY_U8);
                }
            }
            if measure_register_result(mem, addr, i, end) != 0 {
                let j = choose|j: int| #[trigger] register_result_at(mem, addr, i + 4, end, j);
                assert(register_result_at(mem, addr, i, end, j));
            }
        } else {
            assert(register_result_at(mem, addr, i, end, i));
        }
    }
}

proof fn lemma_le_word_bytes(b0: u8, b1: u8, b2: u8, b3: u8)
    ensures
        ({
            let w = (b0 as u32) | ((b1 as u32) << 8u32) | ((b2 as u32) << 16u32) | ((b3 as u32)
                << 24u32);
            &&& word_byte(w, 0) == b0 as u32
            &&& word_byte(w, 1) == b1 as u32
            &&& word_byte(w, 2) == b2 as u32
            &&& word_byte(w, 3) == b3 as u32
        }),
{
    let x0 = b0 as u32;
    let x1 = b1 as u32;
    let x2 = b2 as u32;
    let x3 = b3 as u32;
    assert(x0 < 256 && x1 < 256 && x2 < 256 && x3 < 256 ==> {
        let w = x0 | (x1 << 8u32) | (x2 << 16u32) | (x3 << 24u32);
        &&& ((w >> 0u32) & 0xffu32) == x0
        &&& ((w >> 8u32) & 0xffu32) == x1
        &&& ((w >> 16u32) & 0xffu32) == x2
        &&& ((w >> 24u32) & 0xffu32) == x3
    }) by (bit_vector);
}

/// Measuring inverts painting: on a region of a well-formed canary whose
/// bytes are `mem`, measuring finds no touched byte exactly when every byte
/// still holds the canary, and then, and only then, reports zero stack usage;
/// an address it does find is the lowest byte of the region that no longer
/// holds the canary.
pub proof fn lemma_measure_untouched_iff_painted(c: Canary, mem: Seq<u8>, initial_stack_pointer: u32)
    requires
        c.wf(),
        mem.len() == c.spec_size(),
        c.spec_addr() + c.spec_size() <= initial_stack_pointer,
    ensures
        measured_touch(mem, c.spec_addr()) is None <==> (forall|i: int|
            0 <= i < mem.len() ==> mem[i] == CANARY_U8),
        stack_usage(initial_stack_pointer, measured_touch(mem, c.spec_addr())) == 0 <==> (forall|
            i: int| 0 <= i < mem.len() ==> mem[i] == CANARY_U8),
        measured_touch(mem, c.spec_addr()) matches Some(t) ==> c.spec_addr() <= t < c.spec_addr()
            + c.spec_size(),
        measured_touch(mem, c.spec_addr()) matches Some(t) ==> mem[t - c.spec_addr()] != CANARY_U8
            && forall|k: int| 0 <= k < t - c.spec_addr() ==> mem[k] == CANARY_U8,
{
    let addr = c.spec_addr();
    let sub = measure_subroutine::code().len() as int;
    let window = mem.subrange(0, sub);
    lemma_first_touched_none(window, 0);
    lemma_measure_register_result(mem, addr as int, sub, mem.len() as int);
    match first_touched_from(window, 0) {
        Some(k) => {
            assert(window[k] == mem[k]);
            assert forall|j: int| 0 <= j < k implies mem[j] == CANARY_U8 by {
                assert(window[j] == mem[j]);
            }
        },
        None => {
            assert forall|i: int| 0 <= i < sub implies mem[i] == CANARY_U8 by {
                assert(window[i] == mem[i]);
            }
            let r0 = measure_register_result(mem, addr as int, sub, mem.len() as int);
            if r0 != 0 {
                let j = choose|j: int|
                    #[trigger] register_result_at(mem, addr as int, sub, mem.len() as int, j);
                lemma_le_word_bytes(mem[j], mem[j + 1], mem[j + 2], mem[j + 3]);
                assert(le_word(mem, r0 - addr) == le_word(mem, j));
                assert forall|k: int| 0 <= k < j implies mem[k] == CANARY_U8 by {
                    if k >= sub {
                        assert(register_result_at(mem, addr as int, sub, mem.len() as int, j));
                    }
                }
                let b = measure_subroutine::first_touched_byte(le_word(mem, j));
                assert(0 <= b < 4);
                assert(mem[j + b] != CANARY_U8);
                assert forall|k: int| 0 <= k < j + b implies mem[k] == CANARY_U8 by {
                    if k >= j {
                        assert(word_byte(le_word(mem, j), k - j) == mem[k] as u32);
                    }
                }
                assert(measured_touch(mem, addr) == Some((addr + j + b) as u32));
            }
        },
    }
}

/// The paint subroutine, run with `r0` and `r1`, writes the canary word at
/// every `r0 + 4k` that is at most `r1`: byte `a` is one it writes.
pub open spec fn paint_writes(r0: int, r1: int, a: int) -> bool {
    exists|k: int| 0 <= k && r0 + 4 * k <= r1 && #[trigger] (r0 + 4 * k) <= a < r0 + 4 * k + 4
}

/// Painting covers the whole region: every byte of it is either one of the
/// bytes that overwrite the paint subroutine once it has run, or one that
/// the subroutine, run as `paint_call` sets it up, writes with the canary.
pub proof fn lemma_paint_covers_region(c: Canary, a: int)
    requires
        c.wf(),
        c.spec_addr() <= a < c.spec_addr() + c.spec_size(),
    ensures
        a < c.spec_addr() + paint_subroutine::code().len() || paint_writes(
            c.spec_addr() + paint_subroutine::code().len(),
            c.spec_addr() + c.spec_size(),
            a,
        ),
{
    let r0 = c.spec_addr() + 12;
    if a >= r0 {
        let k = (a - r0) / 4;
        assert(r0 + 4 * k <= a < r0 + 4 * k + 4) by (nonlinear_arith)
            requires
                k == (a - r0) / 4,
                a >= r0,
        ;
        assert(paint_writes(r0, c.spec_addr() + c.spec_size(), a));
    }
}

/// The subroutines are word-sized, fit in the painted region of every
/// placed canary (the paint subroutine with room to spare), and are the
/// Thumb encodings given with them.
pub proof fn lemma_subroutines_fit(c: Canary)
    requires
        c.wf(),
    ensures
        paint_subroutine::code().len() % 4 == 0,
        measure_subroutine::code().len() % 4 == 0,
        paint_subroutine::code().len() < c.spec_size(),
        measure_subroutine::code().len() <= c.spec_size(),
        c.spec_size() != measure_subroutine::code().len() ==> measure_subroutine::code().len()
            < c.spec_size(),
        paint_subroutine::code() == seq![
            0x88u8, 0x42, 0x01, 0xd8, 0x04, 0xc0, 0xfb, 0xe7, 0x00, 0xbe, 0x00, 0xbe,
        ],
        measure_subroutine::code() == seq![
            0x88u8, 0x42, 0x04, 0xd2, 0x03, 0x68, 0x93, 0x42, 0x02, 0xd1,
            0x00, 0x1d, 0xf8, 0xe7, 0x00, 0x20, 0x00, 0xbe, 0x00, 0xbe,
        ],
{
}

} // verus!
