//! Where the stack lives on the target.
use vstd::prelude::*;

verus! {

/// The stack region: `[range_start, range_end]`, the contiguous RAM region
/// that holds the initial stack pointer, and whether loaded static data lies below it.
#[derive(PartialEq, Eq, Structural, Clone, Copy, Debug)]
pub struct StackInfo {
    pub range_start: u32,
    pub range_end: u32,
    pub data_below_stack: bool,
}

/// Kind of a region of the target's memory map.
#[derive(PartialEq, Eq, Structural, Clone, Copy, Debug)]
pub enum MemoryKind {
    Ram,
    Flash,
    Nvm,
}

/// A region `[start, end)` of the target's memory map.
#[derive(PartialEq, Eq, Structural, Clone, Copy, Debug)]
pub struct MemoryRegion {
    pub start: u32,
    pub end: u32,
    pub kind: MemoryKind,
}

/// Loaded static data (`.data`, `.bss`, ...): `size` bytes from `address`.
#[derive(PartialEq, Eq, Structural, Clone, Copy, Debug)]
pub struct DataSection {
    pub address: u32,
    pub size: u32,
}

/// `r` is RAM and holds the byte just below the initial stack pointer.
pub open spec fn holds_stack(r: MemoryRegion, initial_stack_pointer: u32) -> bool {
    r.kind == MemoryKind::Ram && initial_stack_pointer > 0 && r.start <= initial_stack_pointer - 1
        < r.end
}

/// Index of the first region that holds the stack, among the first `n`.
pub open spec fn stack_region_index(map: Seq<MemoryRegion>, initial_stack_pointer: u32, n: int) -> Option<int>
    decreases n,
{
    if n <= 0 {
        None
    } else {
        match stack_region_index(map, initial_stack_pointer, n - 1) {
            Some(i) => Some(i),
            None => if holds_stack(map[n - 1], initial_stack_pointer) {
                Some(n - 1)
            } else {
                None
            },
        }
    }
}

/// Data section `d` is non-empty, starts at or above `start` and ends at or
/// below the initial stack pointer.
pub open spec fn inside_stack_region(d: DataSection, start: u32, initial_stack_pointer: u32) -> bool {
    d.size > 0 && start <= d.address && d.address + d.size <= initial_stack_pointer
}

/// The lowest stack address: `start`, raised past every data section among
/// the first `n` that lies between `start` and the initial stack pointer.
pub open spec fn stack_start(data: Seq<DataSection>, start: u32, initial_stack_pointer: u32, n: int) -> u32
    decreases n,
{
    if n <= 0 {
        start
    } else {
        let prev = stack_start(data, start, initial_stack_pointer, n - 1);
        let d = data[n - 1];
        if inside_stack_region(d, start, initial_stack_pointer) && d.address + d.size > prev {
            (d.address + d.size) as u32
        } else {
            prev
        }
    }
}

/// The stack region that the memory map and the loaded data give.
pub open spec fn stack_info_of(
    initial_stack_pointer: u32,
    map: Seq<MemoryRegion>,
    data: Seq<DataSection>,
) -> Option<StackInfo> {
    match stack_region_index(map, initial_stack_pointer, map.len() as int) {
        None => None,
        Some(i) => {
            let lo = stack_start(data, map[i].start, initial_stack_pointer, data.len() as int);
            Some(
                StackInfo {
                    range_start: lo,
                    range_end: initial_stack_pointer,
                    data_below_stack: exists|j: int|
                        0 <= j < data.len() && data[j].size > 0 && data[j].address < lo,
                },
            )
        },
    }
}

proof fn lemma_stack_start_bounds(data: Seq<DataSection>, start: u32, isp: u32, n: int)
    requires
        start <= isp,
        0 <= n <= data.len(),
    ensures
        start <= stack_start(data, start, isp, n) <= isp,
    decreases n,
{
    if n > 0 {
        lemma_stack_start_bounds(data, start, isp, n - 1);
    }
}

/// Finds the stack region: the RAM region that holds the byte below the
/// initial stack pointer, from above the static data inside it up to the
/// initial stack pointer. `None` where no RAM region holds it.
pub fn stack_info(initial_stack_pointer: u32, map: &Vec<MemoryRegion>, data: &Vec<DataSection>) -> (r:
    Option<StackInfo>)
    ensures
        r == stack_info_of(initial_stack_pointer, map@, data@),
        r matches Some(s) ==> s.range_start <= s.range_end,
{
    if initial_stack_pointer == 0 {
        proof {
            lemma_no_region_below_zero(map@, map@.len() as int);
        }
        return None;
    }
    let mut i: usize = 0;
    let mut found: Option<usize> = None;
    while i < map.len()
        invariant
            i <= map@.len(),
            initial_stack_pointer > 0,
            stack_region_index(map@, initial_stack_pointer, i as int) == (match found {
                Some(k) => Some(k as int),
                None => None::<int>,
            }),
            found matches Some(k) ==> k < i && holds_stack(map@[k as int], initial_stack_pointer),
        decreases map@.len() - i,
    {
        if found.is_none() {
            let r = map[i];
            if r.kind == MemoryKind::Ram && r.start <= initial_stack_pointer - 1 && initial_stack_pointer - 1 < r.end {
                found = Some(i);
            }
        }
        i += 1;
    }
    let k = match found {
        Some(k) => k,
        None => return None,
    };
    let region_start = map[k].start;
    let mut lo = region_start;
    let mut j: usize = 0;
    while j < data.len()
        invariant
            j <= data@.len(),
            region_start <= initial_stack_pointer,
            lo == stack_start(data@, region_start, initial_stack_pointer, j as int),
        decreases data@.len() - j,
    {
        let d = data[j];
        let end = (d.address as u64) + (d.size as u64);
        if d.size > 0 && region_start <= d.address && end <= initial_stack_pointer as u64 {
            if d.address + d.size > lo {
                lo = d.address + d.size;
            }
        }
        j += 1;
    }
    proof {
        lemma_stack_start_bounds(data@, region_start, initial_stack_pointer, data@.len() as int);
    }
    let mut below = false;
    let mut j: usize = 0;
    while j < data.len()
        invariant
            j <= data@.len(),
            below == exists|m: int| 0 <= m < j && data@[m].size > 0 && data@[m].address < lo,
        decreases data@.len() - j,
    {
        let d = data[j];
        if d.size > 0 && d.address < lo {
            below = true;
        }
        j += 1;
    }
    Some(StackInfo { range_start: lo, range_end: initial_stack_pointer, data_below_stack: below })
}

proof fn lemma_no_region_below_zero(map: Seq<MemoryRegion>, n: int)
    requires
        0 <= n,
    ensures
        stack_region_index(map, 0, n) is None,
    decreases n,
{
    if n > 0 {
        lemma_no_region_below_zero(map, n - 1);
    }
}

} // verus!
