//! The facts about the firmware image that the runner needs.
use vstd::prelude::*;

use std::collections::BTreeMap;

use crate::target_info::DataSection;
use crate::text::str_eq;
use crate::elf::defmt_table::{
    log_location_keys, log_table_facts, log_table_facts_any_version, log_table_readable,
};
use crate::elf::object_file::{
    elf_section_by_name, elf_section_data, elf_section_headers, elf_segment_sizes, elf_symbols,
    has_elf_magic, headers_view, is_elf_magic, symbols_view, SectionHeader, SymbolEntry,
};

pub mod defmt_table;
pub mod object_file;

verus! {

/// Why an image cannot be used.
#[derive(PartialEq, Eq, Structural, Clone, Copy, Debug)]
pub enum ElfError {
    /// The bytes are not an object file that can be read.
    Object,
    /// There is no `.text` section: the linker script was not passed to the linker.
    MissingText,
    /// A symbol in `.text` has a name that cannot be read.
    SymbolName,
    /// There is no `.vector_table` section.
    MissingVectorTable,
    /// The vector table's address does not fit in 32 bits.
    VectorTableAddress,
    /// The vector table's address or size is not a multiple of 4.
    VectorTableUnaligned,
    /// The vector table holds fewer than 16 bytes; its length.
    VectorTableTooShort(usize),
    /// There is no `main` symbol.
    MissingMain,
    /// The log table or its locations cannot be read.
    LogTable,
}

/// The first entries of the Cortex-M vector table.
#[derive(PartialEq, Eq, Structural, Clone, Copy, Debug)]
pub struct VectorTable {
    pub location: u32,
    pub initial_stack_pointer: u32,
    pub reset: u32,
    pub hard_fault: u32,
}

/// A symbol as values: name (`None`: unreadable), address, section index.
pub type SymbolView = (Option<Seq<char>>, u64, Option<usize>);

/// A section header as values: index, name (`None`: unreadable), address, size.
pub type HeaderView = (usize, Option<Seq<char>>, u64, u64);

/// The little-endian word at byte `i` of `b`.
pub open spec fn le_u32_at(b: Seq<u8>, i: int) -> int {
    b[i] as int + 256 * b[i + 1] as int + 65536 * b[i + 2] as int + 16777216 * b[i + 3] as int
}

/// The address with the Thumb bit cleared.
pub open spec fn thumb_cleared(addr: u32) -> u32 {
    addr & 0xffff_fffeu32
}

/// Clears the Thumb bit of an address.
pub fn clear_thumb_bit(addr: u32) -> (r: u32)
    ensures
        r == thumb_cleared(addr),
        r % 2 == 0,
        r == addr || r + 1 == addr,
{
    let r = addr & 0xffff_fffe;
    assert(r % 2 == 0 && (r == addr || r + 1 == addr)) by (bit_vector)
        requires
            r == addr & 0xffff_fffeu32,
    ;
    r
}

proof fn lemma_thumb_cleared_even(addr: u32)
    ensures
        thumb_cleared(addr) % 2 == 0,
{
    assert((addr & 0xffff_fffeu32) % 2 == 0) by (bit_vector);
}

fn le_u32(b: &[u8], i: usize) -> (r: u32)
    requires
        i + 4 <= b@.len(),
    ensures
        r == le_u32_at(b@, i as int),
{
    b[i] as u32 + (b[i + 1] as u32) * 256 + (b[i + 2] as u32) * 65536 + (b[i + 3] as u32)
        * 16777216
}

/// Checks where the vector table section lies: its address, which must fit
/// in 32 bits, and its size must both be multiples of 4.
pub fn vector_table_location(address: u64, size: u64) -> (r: Result<u32, ElfError>)
    ensures
        address > u32::MAX ==> r == Err::<u32, ElfError>(ElfError::VectorTableAddress),
        address <= u32::MAX && (size % 4 != 0 || address % 4 != 0) ==> r == Err::<u32, ElfError>(
            ElfError::VectorTableUnaligned,
        ),
        address <= u32::MAX && size % 4 == 0 && address % 4 == 0 ==> r == Ok::<u32, ElfError>(
            address as u32,
        ),
{
    if address > 0xffff_ffff {
        return Err(ElfError::VectorTableAddress);
    }
    if size % 4 != 0 || address % 4 != 0 {
        return Err(ElfError::VectorTableUnaligned);
    }
    Ok(address as u32)
}

/// Reads the first four words of the vector table: initial stack pointer,
/// reset handler, (NMI handler), hard-fault handler.
pub fn vector_table_from_bytes(location: u32, bytes: &[u8]) -> (r: Result<VectorTable, ElfError>)
    ensures
        bytes@.len() < 16 ==> r == Err::<VectorTable, ElfError>(
            ElfError::VectorTableTooShort(bytes@.len() as usize),
        ),
        bytes@.len() >= 16 ==> r == Ok::<VectorTable, ElfError>(
            VectorTable {
                location,
                initial_stack_pointer: le_u32_at(bytes@, 0) as u32,
                reset: le_u32_at(bytes@, 4) as u32,
                hard_fault: le_u32_at(bytes@, 12) as u32,
            },
        ),
{
    if bytes.len() < 16 {
        return Err(ElfError::VectorTableTooShort(bytes.len()));
    }
    Ok(
        VectorTable {
            location,
            initial_stack_pointer: le_u32(bytes, 0),
            reset: le_u32(bytes, 4),
            hard_fault: le_u32(bytes, 12),
        },
    )
}


/// The symbol has a readable name equal to `name`.
pub open spec fn named(e: SymbolView, name: Seq<char>) -> bool {
    e.0 == Some(name)
}

/// The address of the last symbol named `name` among the first `n`.
pub open spec fn last_address_named(syms: Seq<SymbolView>, name: Seq<char>, n: int) -> Option<u64>
    decreases n,
{
    if n <= 0 {
        None
    } else if named(syms[n - 1], name) {
        Some(syms[n - 1].1)
    } else {
        last_address_named(syms, name, n - 1)
    }
}

/// A symbol whose presence shows that the program allocates on a heap.
pub open spec fn is_heap_symbol(name: Seq<char>) -> bool {
    name == "__rust_alloc"@ || name == "__rg_alloc"@ || name == "__rdl_alloc"@ || name
        == "malloc"@
}

/// The symbol has a readable name that is a heap symbol.
pub open spec fn heap_entry(e: SymbolView) -> bool {
    e.0 matches Some(s) && is_heap_symbol(s)
}

/// Some symbol among the first `n` is a heap symbol.
pub open spec fn heap_symbol_among(syms: Seq<SymbolView>, n: int) -> bool {
    exists|j: int| 0 <= j < n && #[trigger] heap_entry(syms[j])
}

/// What the symbol table tells.
#[derive(PartialEq, Eq, Structural, Clone, Copy, Debug)]
pub struct SymbolFacts {
    /// Address of the RTT control block `_SEGGER_RTT`.
    pub rtt_buffer_address: Option<u32>,
    pub uses_heap: bool,
    /// Address of `main`, Thumb bit cleared.
    pub main_function_address: u32,
}

fn is_named(e: &SymbolEntry, name: &str) -> (r: bool)
    ensures
        r == named(e@, name@),
{
    match &e.name {
        Some(n) => str_eq(n.as_str(), name),
        None => false,
    }
}

/// Scans the symbol table for `main`, the RTT control block and the heap
/// symbols; where a name occurs more than once, the last one counts.
pub fn scan_symbols(syms: &Vec<SymbolEntry>) -> (r: Result<SymbolFacts, ElfError>)
    ensures
        last_address_named(symbols_view(syms@), "main"@, syms@.len() as int) is None ==> r == Err::<
            SymbolFacts,
            ElfError,
        >(ElfError::MissingMain),
        last_address_named(symbols_view(syms@), "main"@, syms@.len() as int) matches Some(m) ==> r
            == Ok::<SymbolFacts, ElfError>(
            SymbolFacts {
                rtt_buffer_address: match last_address_named(
                    symbols_view(syms@),
                    "_SEGGER_RTT"@,
                    syms@.len() as int,
                ) {
                    Some(a) => Some(a as u32),
                    None => None,
                },
                uses_heap: heap_symbol_among(symbols_view(syms@), syms@.len() as int),
                main_function_address: thumb_cleared(m as u32),
            },
        ),
{
    let mut main: Option<u64> = None;
    let mut rtt: Option<u64> = None;
    let mut uses_heap = false;
    let mut i: usize = 0;
    while i < syms.len()
        invariant
            i <= syms@.len(),
            main == last_address_named(symbols_view(syms@), "main"@, i as int),
            rtt == last_address_named(symbols_view(syms@), "_SEGGER_RTT"@, i as int),
            uses_heap == heap_symbol_among(symbols_view(syms@), i as int),
        decreases syms@.len() - i,
    {
        let e = &syms[i];
        if is_named(e, "main") {
            main = Some(e.address);
        }
        if is_named(e, "_SEGGER_RTT") {
            rtt = Some(e.address);
        }
        let heap = is_named(e, "__rust_alloc") || is_named(e, "__rg_alloc") || is_named(
            e,
            "__rdl_alloc",
        ) || is_named(e, "malloc");
        assert(heap == heap_entry(syms@[i as int]@));
        if heap {
            uses_heap = true;
        }
        proof {
            if heap_symbol_among(symbols_view(syms@), i + 1) && !heap_symbol_among(symbols_view(syms@), i as int) {
                let j = choose|j: int| 0 <= j < i + 1 && #[trigger] heap_entry(symbols_view(syms@)[j]);
                assert(j == i);
            }
        }
        i += 1;
    }
    match main {
        None => Err(ElfError::MissingMain),
        Some(m) => Ok(
            SymbolFacts {
                rtt_buffer_address: match rtt {
                    Some(a) => Some(a as u32),
                    None => None,
                },
                uses_heap,
                main_function_address: clear_thumb_bit(m as u32),
            },
        ),
    }
}

/// Names of the symbols among the first `n` that lie in section `text`,
/// each name once, in the order of its first symbol.
pub open spec fn live_names(syms: Seq<SymbolView>, text: usize, n: int) -> Seq<Seq<char>>
    decreases n,
{
    if n <= 0 {
        Seq::empty()
    } else {
        let prev = live_names(syms, text, n - 1);
        let e = syms[n - 1];
        if e.2 == Some(text) && e.0 is Some && !prev.contains(e.0->Some_0) {
            prev.push(e.0->Some_0)
        } else {
            prev
        }
    }
}

/// Some symbol in section `text` has a name that cannot be read.
pub open spec fn unreadable_live_name(syms: Seq<SymbolView>, text: usize) -> bool {
    exists|j: int| 0 <= j < syms.len() && syms[j].2 == Some(text) && syms[j].0 is None
}

/// The live function names hold each name at most once.
pub proof fn lemma_live_names_distinct(syms: Seq<SymbolView>, text: usize, n: int)
    ensures
        live_names(syms, text, n).no_duplicates(),
    decreases n,
{
    if n > 0 {
        lemma_live_names_distinct(syms, text, n - 1);
        let prev = live_names(syms, text, n - 1);
        let e = syms[n - 1];
        if e.2 == Some(text) && e.0 is Some && !prev.contains(e.0->Some_0) {
            let q = prev.push(e.0->Some_0);
            assert forall|i: int, j: int| 0 <= i < j < q.len() implies q[i] != q[j] by {
                if j == q.len() - 1 {
                    assert(prev[i] == q[i]);
                }
            }
        }
    }
}

fn contains_name(names: &Vec<String>, name: &str) -> (r: bool)
    ensures
        r == names@.map_values(|s: String| s@).contains(name@),
{
    let ghost nv = names@.map_values(|s: String| s@);
    let mut i: usize = 0;
    while i < names.len()
        invariant
            i <= names@.len(),
            nv == names@.map_values(|s: String| s@),
            forall|j: int| 0 <= j < i ==> nv[j] != name@,
        decreases names@.len() - i,
    {
        if str_eq(names[i].as_str(), name) {
            assert(nv[i as int] == name@);
            return true;
        }
        i += 1;
    }
    false
}

/// The names of the functions linked into the program: the symbols of the
/// `.text` section (at index `text`), each name once, in symbol-table order.
pub fn live_functions(syms: &Vec<SymbolEntry>, text: usize) -> (r: Result<Vec<String>, ElfError>)
    ensures
        unreadable_live_name(symbols_view(syms@), text) ==> r == Err::<Vec<String>, ElfError>(
            ElfError::SymbolName,
        ),
        !unreadable_live_name(symbols_view(syms@), text) ==> (r matches Ok(v) && v@.map_values(|s: String| s@)
            == live_names(symbols_view(syms@), text, syms@.len() as int)),
{
    let mut out: Vec<String> = Vec::new();
    let mut i: usize = 0;
    while i < syms.len()
        invariant
            i <= syms@.len(),
            out@.map_values(|s: String| s@) == live_names(symbols_view(syms@), text, i as int),
            forall|j: int| 0 <= j < i ==> !(syms@[j].section == Some(text) && syms@[j].name is None),
        decreases syms@.len() - i,
    {
        let e = &syms[i];
        if e.section == Some(text) {
            match &e.name {
                Some(n) => {
                    if !contains_name(&out, n.as_str()) {
                        out.push(n.clone());
                        assert(out@.map_values(|s: String| s@) == live_names(
                            symbols_view(syms@),
                            text,
                            i as int,
                        ).push(n@));
                    }
                },
                None => {
                    assert(symbols_view(syms@)[i as int] == syms@[i as int]@);
                    return Err(ElfError::SymbolName);
                },
            }
        }
        i += 1;
    }
    Ok(out)
}


/// A section that holds static data in RAM.
pub open spec fn is_data_section_name(name: Seq<char>) -> bool {
    name == ".data"@ || name == ".bss"@ || name == ".uninit"@
}

/// The header names a non-empty static-data section that lies in the 32-bit address space.
pub open spec fn is_static_data(h: HeaderView) -> bool {
    &&& h.1 matches Some(n)
    &&& is_data_section_name(n)
    &&& h.3 > 0
    &&& h.2 + h.3 <= u32::MAX
}

/// The static-data sections among the first `n` headers.
pub open spec fn static_data_of(hs: Seq<HeaderView>, n: int) -> Seq<DataSection>
    decreases n,
{
    if n <= 0 {
        Seq::empty()
    } else {
        let prev = static_data_of(hs, n - 1);
        let h = hs[n - 1];
        if is_static_data(h) {
            prev.push(DataSection { address: h.2 as u32, size: h.3 as u32 })
        } else {
            prev
        }
    }
}

/// The loaded static data (`.data`, `.bss`, `.uninit`), in header order.
pub fn static_data_sections(hs: &Vec<SectionHeader>) -> (r: Vec<DataSection>)
    ensures
        r@ == static_data_of(headers_view(hs@), hs@.len() as int),
{
    let mut out: Vec<DataSection> = Vec::new();
    let mut i: usize = 0;
    while i < hs.len()
        invariant
            i <= hs@.len(),
            out@ == static_data_of(headers_view(hs@), i as int),
        decreases hs@.len() - i,
    {
        let h = &hs[i];
        let data_name = match &h.name {
            Some(n) => str_eq(n.as_str(), ".data") || str_eq(n.as_str(), ".bss") || str_eq(
                n.as_str(),
                ".uninit",
            ),
            None => false,
        };
        if data_name && h.size > 0 && h.address <= 0xffff_ffff && h.size <= 0xffff_ffff - h.address {
            out.push(DataSection { address: h.address as u32, size: h.size as u32 });
        }
        i += 1;
    }
    out
}

/// Sum of the first `n` sizes.
pub open spec fn total_size(sizes: Seq<u64>, n: int) -> int
    decreases n,
{
    if n <= 0 {
        0
    } else {
        total_size(sizes, n - 1) + sizes[n - 1]
    }
}

proof fn lemma_total_size_monotone(sizes: Seq<u64>, m: int, n: int)
    requires
        0 <= m <= n <= sizes.len(),
    ensures
        total_size(sizes, m) <= total_size(sizes, n),
    decreases n - m,
{
    if m < n {
        lemma_total_size_monotone(sizes, m, n - 1);
    }
}

/// Total size of the loadable segments, saturating at `u64::MAX`.
pub fn program_size(sizes: &Vec<u64>) -> (r: u64)
    ensures
        r == (if total_size(sizes@, sizes@.len() as int) > u64::MAX {
            u64::MAX as int
        } else {
            total_size(sizes@, sizes@.len() as int)
        }),
{
    let mut total: u64 = 0;
    let mut i: usize = 0;
    while i < sizes.len()
        invariant
            i <= sizes@.len(),
            total == total_size(sizes@, i as int),
        decreases sizes@.len() - i,
    {
        if total > u64::MAX - sizes[i] {
            proof {
                lemma_total_size_monotone(sizes@, i + 1, sizes@.len() as int);
            }
            return u64::MAX;
        }
        total = total + sizes[i];
        i += 1;
    }
    total
}

/// How complete the log table's location information is.
#[derive(PartialEq, Eq, Structural, Clone, Copy, Debug)]
pub enum LocationVerdict {
    /// Every entry has a location.
    Complete,
    /// The table has entries but the image has no location at all: it lacks debug information.
    MissingDebugInfo,
    /// Some entry has no location.
    Incomplete,
}

/// The verdict on the locations whose indices are `keys`, for a table with
/// entries `indices` (`table_is_empty`: it has no entry at all).
pub open spec fn location_verdict_of(table_is_empty: bool, indices: Seq<usize>, keys: Set<u64>) -> LocationVerdict {
    if !table_is_empty && keys.is_empty() {
        LocationVerdict::MissingDebugInfo
    } else if forall|i: int| 0 <= i < indices.len() ==> keys.contains(#[trigger] indices[i] as u64) {
        LocationVerdict::Complete
    } else {
        LocationVerdict::Incomplete
    }
}

/// Judges the location information of the log table; it is used only where
/// it is complete, so that no entry is ever looked up in vain.
pub fn location_verdict(
    table_is_empty: bool,
    indices: &Vec<usize>,
    locations: &BTreeMap<u64, defmt_decoder::Location>,
) -> (r: LocationVerdict)
    ensures
        r == location_verdict_of(table_is_empty, indices@, locations@.dom()),
{
    broadcast use vstd::std_specs::btree::group_btree_axioms, vstd::laws_cmp::group_laws_cmp;

    if !table_is_empty && locations.is_empty() {
        assert(locations@.dom().is_empty()) by {
            assert(locations@.dom().len() == 0);
        }
        return LocationVerdict::MissingDebugInfo;
    }
    assert(!(!table_is_empty && locations@.dom().is_empty())) by {
        if !table_is_empty && locations@.dom().is_empty() {
            assert(locations@.dom() =~= Set::empty());
            assert(locations@.len() == 0);
        }
    }
    assert(vstd::laws_cmp::obeys_cmp::<u64>());
    let mut i: usize = 0;
    while i < indices.len()
        invariant
            i <= indices@.len(),
            vstd::laws_cmp::obeys_cmp::<u64>(),
            !(!table_is_empty && locations@.dom().is_empty()),
            forall|j: int| 0 <= j < i ==> locations@.dom().contains(#[trigger] indices@[j] as u64),
        decreases indices@.len() - i,
    {
        let key = indices[i] as u64;
        if !locations.contains_key(&key) {
            assert(!locations@.dom().contains(indices@[i as int] as u64));
            return LocationVerdict::Incomplete;
        }
        i += 1;
    }
    LocationVerdict::Complete
}


/// The firmware's log table, with its locations where they are complete.
pub struct LogTable {
    pub table: defmt_decoder::Table,
    pub locations: Option<BTreeMap<u64, defmt_decoder::Location>>,
    pub verdict: LocationVerdict,
}

/// Whether every symbol lies at least 16 bytes below the top of the address space.
pub fn symbols_below_top(syms: &Vec<SymbolEntry>) -> (r: bool)
    ensures
        r == forall|i: int| 0 <= i < syms@.len() ==> #[trigger] syms@[i].address <= u64::MAX - 16,
{
    let mut i: usize = 0;
    while i < syms.len()
        invariant
            i <= syms@.len(),
            forall|j: int| 0 <= j < i ==> #[trigger] syms@[j].address <= u64::MAX - 16,
        decreases syms@.len() - i,
    {
        if syms[i].address > u64::MAX - 16 {
            return false;
        }
        i += 1;
    }
    true
}

/// The log table as `Table::parse` reads it, or `Table::parse_ignore_version`
/// where the version is ignored.
pub open spec fn table_facts(bytes: Seq<u8>, ignore_version: bool) -> Option<
    Option<(bool, Seq<usize>)>,
> {
    if ignore_version {
        log_table_facts_any_version(bytes)
    } else {
        log_table_facts(bytes)
    }
}

/// What reading the log table gives: `None` where it fails.
pub open spec fn log_table_outcome(bytes: Seq<u8>, ignore_version: bool) -> Option<
    Option<LocationVerdict>,
> {
    if !log_table_readable(bytes) {
        None
    } else {
        match table_facts(bytes, ignore_version) {
            None => None,
            Some(None) => Some(None),
            Some(Some((empty, indices))) => match log_location_keys(bytes) {
                None => None,
                Some(keys) => Some(Some(location_verdict_of(empty, indices, keys))),
            },
        }
    }
}

/// Reads the log table and its locations; `ignore_version` accepts a table
/// of any encoding version. `Ok(None)` where the image has no log table;
/// an error where the table cannot be read, and where reading it would
/// overflow (a symbol within 16 bytes of the top of the address space).
pub fn extract_defmt_info(bytes: &[u8], ignore_version: bool) -> (r: Result<Option<LogTable>, ElfError>)
    ensures
        log_table_outcome(bytes@, ignore_version) is None ==> r matches Err(ElfError::LogTable),
        log_table_outcome(bytes@, ignore_version) == Some(None::<LocationVerdict>) ==> r matches Ok(None),
        log_table_outcome(bytes@, ignore_version) matches Some(Some(v)) ==> (r matches Ok(Some(t))
            && t.verdict == v),
        r matches Ok(Some(t)) ==> (t.locations is Some <==> t.verdict == LocationVerdict::Complete),
{
    if !has_elf_magic(bytes) {
        return Err(ElfError::LogTable);
    }
    let syms = match object_file::symbols(bytes) {
        Ok(s) => s,
        Err(_) => return Err(ElfError::LogTable),
    };
    if !symbols_below_top(&syms) {
        proof {
            let k = choose|k: int| 0 <= k < syms@.len() && !(#[trigger] syms@[k].address <= u64::MAX - 16);
            assert(symbols_view(syms@)[k].1 == syms@[k].address);
            assert(elf_symbols(bytes@)->Some_0[k].1 > u64::MAX - 16);
        }
        return Err(ElfError::LogTable);
    }
    assert forall|k: int| 0 <= k < symbols_view(syms@).len() implies #[trigger] symbols_view(
        syms@,
    )[k].1 <= u64::MAX - 16 by {
        assert(symbols_view(syms@)[k].1 == syms@[k].address);
    }
    assert(log_table_readable(bytes@));
    let parsed = if ignore_version {
        defmt_table::parse_ignore_version(bytes)
    } else {
        defmt_table::parse(bytes)
    };
    let parsed = match parsed {
        Ok(Some(t)) => t,
        Ok(None) => return Ok(None),
        Err(_) => return Err(ElfError::LogTable),
    };
    let locs = match defmt_table::locations(bytes) {
        Ok(l) => l,
        Err(_) => return Err(ElfError::LogTable),
    };
    let verdict = location_verdict(parsed.is_empty, &parsed.indices, &locs);
    let locations = if verdict == LocationVerdict::Complete {
        Some(locs)
    } else {
        None
    };
    Ok(Some(LogTable { table: parsed.table, locations, verdict }))
}

/// What the runner knows of the firmware image.
pub struct Elf {
    pub vector_table: VectorTable,
    /// Address of `main`, Thumb bit cleared.
    pub main_function_address: u32,
    /// Address of the RTT control block, where the image has one.
    pub rtt_buffer_address: Option<u32>,
    /// The program allocates on a heap.
    pub program_uses_heap: bool,
    /// Names of the functions in `.text`.
    pub live_functions: Vec<String>,
    /// The `.debug_frame` section; without it unwinding stops at the first frame.
    pub debug_frame: Option<Vec<u8>>,
    /// The loaded static data.
    pub static_data: Vec<DataSection>,
    /// Total size of the loadable segments.
    pub program_size: u64,
    pub log_table: Option<LogTable>,
}

/// A 64-bit address as 32 bits, where there is one.
pub open spec fn opt_u32(a: Option<u64>) -> Option<u32> {
    match a {
        Some(a) => Some(a as u32),
        None => None,
    }
}

/// Every read that `Elf::parse` makes succeeds and the image has what the
/// runner needs: `.text` with readable symbol names, `main`, a readable log
/// table (or none), and an aligned vector table of at least 16 bytes.
pub open spec fn image_readable(bytes: Seq<u8>, ignore_version: bool) -> bool {
    &&& is_elf_magic(bytes)
    &&& elf_section_by_name(bytes, ".text"@) matches Some(Some(t))
    &&& elf_symbols(bytes) matches Some(s)
    &&& !unreadable_live_name(s, t.0)
    &&& log_table_outcome(bytes, ignore_version) is Some
    &&& elf_section_by_name(bytes, ".vector_table"@) matches Some(Some(h))
    &&& h.2 <= u32::MAX && h.2 % 4 == 0 && h.3 % 4 == 0
    &&& elf_section_data(bytes, h.0) matches Some(d)
    &&& d.len() >= 16
    &&& elf_section_by_name(bytes, ".debug_frame"@) matches Some(df)
    &&& (df matches Some(hd) ==> elf_section_data(bytes, hd.0) is Some)
    &&& last_address_named(s, "main"@, s.len() as int) is Some
    &&& elf_section_headers(bytes) is Some
    &&& elf_segment_sizes(bytes) is Some
}

/// What a successfully read image holds, by the reads it was made from.
pub open spec fn image_facts(bytes: Seq<u8>, ignore_version: bool, e: &Elf) -> bool {
    &&& elf_symbols(bytes) matches Some(s)
    &&& last_address_named(s, "main"@, s.len() as int) matches Some(m)
    &&& e.main_function_address == thumb_cleared(m as u32)
    &&& e.program_uses_heap == heap_symbol_among(s, s.len() as int)
    &&& e.rtt_buffer_address == opt_u32(last_address_named(s, "_SEGGER_RTT"@, s.len() as int))
    &&& elf_section_by_name(bytes, ".text"@) matches Some(Some(t))
    &&& e.live_functions@.map_values(|n: String| n@) == live_names(s, t.0, s.len() as int)
    &&& elf_section_by_name(bytes, ".vector_table"@) matches Some(Some(h))
    &&& elf_section_data(bytes, h.0) matches Some(d)
    &&& d.len() >= 16
    &&& e.vector_table == VectorTable {
        location: h.2 as u32,
        initial_stack_pointer: le_u32_at(d, 0) as u32,
        reset: le_u32_at(d, 4) as u32,
        hard_fault: le_u32_at(d, 12) as u32,
    }
    &&& elf_section_by_name(bytes, ".debug_frame"@) matches Some(df)
    &&& match df {
        None => e.debug_frame is None,
        Some(hd) => e.debug_frame matches Some(dd) && elf_section_data(bytes, hd.0) == Some(dd@),
    }
    &&& elf_section_headers(bytes) matches Some(hs)
    &&& e.static_data@ == static_data_of(hs, hs.len() as int)
    &&& elf_segment_sizes(bytes) matches Some(z)
    &&& e.program_size == (if total_size(z, z.len() as int) > u64::MAX {
        u64::MAX as int
    } else {
        total_size(z, z.len() as int)
    })
    &&& log_table_outcome(bytes, ignore_version) matches Some(o)
    &&& match o {
        None => e.log_table is None,
        Some(v) => e.log_table matches Some(lt) && lt.verdict == v,
    }
}

impl Elf {
    /// The vector table is word-aligned and `main` has its Thumb bit cleared.
    pub open spec fn wf(&self) -> bool {
        &&& self.vector_table.location % 4 == 0
        &&& self.main_function_address % 2 == 0
    }

    /// Reads an image: `.text` and the symbols in it, the log table, the
    /// vector table, `.debug_frame` where present, `main` and the RTT
    /// control block, the static data and the program size.
    pub fn parse(bytes: &[u8], ignore_version: bool) -> (r: Result<Elf, ElfError>)
        ensures
            !is_elf_magic(bytes@) ==> r matches Err(ElfError::Object),
            is_elf_magic(bytes@) && elf_section_by_name(bytes@, ".text"@) == Some(
                None::<HeaderView>,
            ) ==> r matches Err(ElfError::MissingText),
            image_readable(bytes@, ignore_version) ==> r is Ok,
            r matches Ok(e) ==> e.wf() && image_facts(bytes@, ignore_version, &e),
    {
        if !has_elf_magic(bytes) {
            return Err(ElfError::Object);
        }
        let text = match object_file::section_by_name(bytes, ".text") {
            Ok(Some(h)) => h,
            Ok(None) => return Err(ElfError::MissingText),
            Err(_) => return Err(ElfError::Object),
        };
        let syms = match object_file::symbols(bytes) {
            Ok(s) => s,
            Err(_) => return Err(ElfError::Object),
        };
        let live_functions = match live_functions(&syms, text.index) {
            Ok(l) => l,
            Err(e) => return Err(e),
        };
        let log_table = match extract_defmt_info(bytes, ignore_version) {
            Ok(t) => t,
            Err(e) => return Err(e),
        };
        let vt = match object_file::section_by_name(bytes, ".vector_table") {
            Ok(Some(h)) => h,
            Ok(None) => return Err(ElfError::MissingVectorTable),
            Err(_) => return Err(ElfError::Object),
        };
        let location = match vector_table_location(vt.address, vt.size) {
            Ok(l) => l,
            Err(e) => return Err(e),
        };
        let vt_bytes = match object_file::section_data(bytes, vt.index) {
            Ok(d) => d,
            Err(_) => return Err(ElfError::Object),
        };
        let vector_table = match vector_table_from_bytes(location, vt_bytes.as_slice()) {
            Ok(v) => v,
            Err(e) => return Err(e),
        };
        let debug_frame = match object_file::section_by_name(bytes, ".debug_frame") {
            Ok(Some(h)) => match object_file::section_data(bytes, h.index) {
                Ok(d) => Some(d),
                Err(_) => return Err(ElfError::Object),
            },
            Ok(None) => None,
            Err(_) => return Err(ElfError::Object),
        };
        let facts = match scan_symbols(&syms) {
            Ok(f) => f,
            Err(e) => return Err(e),
        };
        let static_data = match object_file::section_headers(bytes) {
            Ok(hs) => static_data_sections(&hs),
            Err(_) => return Err(ElfError::Object),
        };
        let program_size = match object_file::segment_sizes(bytes) {
            Ok(sizes) => program_size(&sizes),
            Err(_) => return Err(ElfError::Object),
        };
        proof {
            let m = last_address_named(symbols_view(syms@), "main"@, syms@.len() as int)->Some_0;
            lemma_thumb_cleared_even(m as u32);
        }
        Ok(
            Elf {
                vector_table,
                main_function_address: facts.main_function_address,
                rtt_buffer_address: facts.rtt_buffer_address,
                program_uses_heap: facts.uses_heap,
                live_functions,
                debug_frame,
                static_data,
                program_size,
                log_table,
            },
        )
    }

    pub fn rtt_buffer_address(&self) -> (r: Option<u32>)
        ensures
            r == self.rtt_buffer_address,
    {
        self.rtt_buffer_address
    }

    pub fn program_uses_heap(&self) -> (r: bool)
        ensures
            r == self.program_uses_heap,
    {
        self.program_uses_heap
    }
}

} // verus!
