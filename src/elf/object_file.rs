//! What the library reads of an ELF image through the `object` crate.
//! Each reader takes the image's bytes; parsing them only reads the headers.
//! The readers are only called on bytes that start with the ELF magic, so
//! that `object` uses its ELF reader alone.
use vstd::prelude::*;

use object::{Object, ObjectSection, ObjectSegment, ObjectSymbol};

verus! {

#[verifier::external_type_specification]
#[verifier::external_body]
pub struct ExObjectError(object::read::Error);

/// The bytes start with the ELF magic `\x7fELF`.
pub open spec fn is_elf_magic(b: Seq<u8>) -> bool {
    b.len() >= 4 && b[0] == 0x7fu8 && b[1] == 0x45u8 && b[2] == 0x4cu8 && b[3] == 0x46u8
}

/// Whether the bytes start with the ELF magic.
pub fn has_elf_magic(b: &[u8]) -> (r: bool)
    ensures
        r == is_elf_magic(b@),
{
    b.len() >= 4 && b[0] == 0x7f && b[1] == 0x45 && b[2] == 0x4c && b[3] == 0x46
}

/// A string read from the file, as characters (`None`: it cannot be read).
pub open spec fn opt_chars(o: Option<String>) -> Option<Seq<char>> {
    match o {
        Some(s) => Some(s@),
        None => None,
    }
}

/// A section header: its index, name (`None` where it cannot be read),
/// address and size.
pub struct SectionHeader {
    pub index: usize,
    pub name: Option<String>,
    pub address: u64,
    pub size: u64,
}

impl View for SectionHeader {
    type V = (usize, Option<Seq<char>>, u64, u64);

    open spec fn view(&self) -> (usize, Option<Seq<char>>, u64, u64) {
        (self.index, opt_chars(self.name), self.address, self.size)
    }
}

/// A symbol: its name (`None` where it cannot be read), address, and the
/// index of the section it is defined in (`None` for an undefined,
/// absolute or common symbol).
pub struct SymbolEntry {
    pub name: Option<String>,
    pub address: u64,
    pub section: Option<usize>,
}

impl View for SymbolEntry {
    type V = (Option<Seq<char>>, u64, Option<usize>);

    open spec fn view(&self) -> (Option<Seq<char>>, u64, Option<usize>) {
        (opt_chars(self.name), self.address, self.section)
    }
}

/// The symbols, as values.
pub open spec fn symbols_view(v: Seq<SymbolEntry>) -> Seq<(Option<Seq<char>>, u64, Option<usize>)> {
    v.map_values(|e: SymbolEntry| e@)
}

/// The section headers, as values.
pub open spec fn headers_view(v: Seq<SectionHeader>) -> Seq<(usize, Option<Seq<char>>, u64, u64)> {
    v.map_values(|h: SectionHeader| h@)
}

/// The first section of a name in an ELF image: `None` where the image
/// cannot be parsed, `Some(None)` where there is no such section.
pub uninterp spec fn elf_section_by_name(bytes: Seq<u8>, name: Seq<char>) -> Option<
    Option<(usize, Option<Seq<char>>, u64, u64)>,
>;

/// The section headers of an ELF image in file order, where it can be parsed.
pub uninterp spec fn elf_section_headers(bytes: Seq<u8>) -> Option<
    Seq<(usize, Option<Seq<char>>, u64, u64)>,
>;

/// The contents of the section at an index, where they can be read.
pub uninterp spec fn elf_section_data(bytes: Seq<u8>, index: usize) -> Option<Seq<u8>>;

/// The symbol table of an ELF image in file order, where it can be parsed.
pub uninterp spec fn elf_symbols(bytes: Seq<u8>) -> Option<
    Seq<(Option<Seq<char>>, u64, Option<usize>)>,
>;

/// The sizes of the loadable segments of an ELF image, where it can be parsed.
pub uninterp spec fn elf_segment_sizes(bytes: Seq<u8>) -> Option<Seq<u64>>;

/// Relies on `object::read::File::parse` and `Object::section_by_name`
/// (with the section's `index`, `name`, `address` and `size`): the first
/// section of that name; the result depends on the bytes and the name alone.
#[verifier::external_body]
pub(crate) fn section_by_name(bytes: &[u8], name: &str) -> (r: Result<
    Option<SectionHeader>,
    object::read::Error,
>)
    requires
        is_elf_magic(bytes@),
    ensures
        r is Ok <==> elf_section_by_name(bytes@, name@) is Some,
        r matches Ok(o) ==> elf_section_by_name(bytes@, name@) == Some(
            match o {
                Some(h) => Some(h@),
                None => None,
            },
        ),
{
    let file = object::read::File::parse(bytes)?;
    Ok(
        file.section_by_name(name).map(
            |s| SectionHeader {
                index: s.index().0,
                name: s.name().ok().map(String::from),
                address: s.address(),
                size: s.size(),
            },
        ),
    )
}

/// Relies on `object::read::File::parse` and `Object::sections` (with each
/// section's `index`, `name`, `address` and `size`): the section headers
/// in file order.
#[verifier::external_body]
pub(crate) fn section_headers(bytes: &[u8]) -> (r: Result<Vec<SectionHeader>, object::read::Error>)
    requires
        is_elf_magic(bytes@),
    ensures
        r is Ok <==> elf_section_headers(bytes@) is Some,
        r matches Ok(v) ==> elf_section_headers(bytes@) == Some(headers_view(v@)),
{
    let file = object::read::File::parse(bytes)?;
    Ok(
        file.sections().map(
            |s| SectionHeader {
                index: s.index().0,
                name: s.name().ok().map(String::from),
                address: s.address(),
                size: s.size(),
            },
        ).collect(),
    )
}

/// Relies on `object::read::File::parse`, `Object::section_by_index` and
/// `ObjectSection::data`: the bytes of a section.
#[verifier::external_body]
pub(crate) fn section_data(bytes: &[u8], index: usize) -> (r: Result<Vec<u8>, object::read::Error>)
    requires
        is_elf_magic(bytes@),
    ensures
        r is Ok <==> elf_section_data(bytes@, index) is Some,
        r matches Ok(d) ==> elf_section_data(bytes@, index) == Some(d@),
{
    let file = object::read::File::parse(bytes)?;
    Ok(file.section_by_index(object::SectionIndex(index))?.data()?.to_vec())
}

/// Relies on `object::read::File::parse` and `Object::symbols` (with each
/// symbol's `name`, `address` and `section`): the symbol table in file order.
#[verifier::external_body]
pub(crate) fn symbols(bytes: &[u8]) -> (r: Result<Vec<SymbolEntry>, object::read::Error>)
    requires
        is_elf_magic(bytes@),
    ensures
        r is Ok <==> elf_symbols(bytes@) is Some,
        r matches Ok(v) ==> elf_symbols(bytes@) == Some(symbols_view(v@)),
{
    let file = object::read::File::parse(bytes)?;
    Ok(
        file.symbols().map(
            |s| SymbolEntry {
                name: s.name().ok().map(String::from),
                address: s.address(),
                section: match s.section() {
                    object::SymbolSection::Section(i) => Some(i.0),
                    _ => None,
                },
            },
        ).collect(),
    )
}

/// Relies on `object::read::File::parse`, `Object::segments` and
/// `ObjectSegment::size`: the sizes of the loadable segments.
#[verifier::external_body]
pub(crate) fn segment_sizes(bytes: &[u8]) -> (r: Result<Vec<u64>, object::read::Error>)
    requires
        is_elf_magic(bytes@),
    ensures
        r is Ok <==> elf_segment_sizes(bytes@) is Some,
        r matches Ok(v) ==> elf_segment_sizes(bytes@) == Some(v@),
{
    let file = object::read::File::parse(bytes)?;
    Ok(file.segments().map(|s| s.size()).collect())
}

} // verus!
