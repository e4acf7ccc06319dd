//! What the library reads of the firmware's log table through `defmt_decoder`.
use vstd::prelude::*;

use std::collections::BTreeMap;

use crate::elf::object_file::{elf_symbols, is_elf_magic};

verus! {

#[verifier::external_type_specification]
#[verifier::external_body]
pub struct ExTable(defmt_decoder::Table);

#[verifier::external_type_specification]
#[verifier::external_body]
pub struct ExLocation(defmt_decoder::Location);

#[verifier::external_type_specification]
#[verifier::external_body]
pub struct ExAnyhowError(anyhow::Error);

/// The log table of an image, with whether it is empty and the indices of
/// its log entries.
pub struct ParsedTable {
    pub table: defmt_decoder::Table,
    pub is_empty: bool,
    pub indices: Vec<usize>,
}

/// The log table that `Table::parse` reads from an image: `None` where it
/// fails, `Some(None)` where the image has none, else whether the table is
/// empty and the indices of its log entries.
pub uninterp spec fn log_table_facts(elf: Seq<u8>) -> Option<Option<(bool, Seq<usize>)>>;

/// The same, as `Table::parse_ignore_version` reads it.
pub uninterp spec fn log_table_facts_any_version(elf: Seq<u8>) -> Option<
    Option<(bool, Seq<usize>)>,
>;

/// The indices that have a source location, as `Table::get_locations`
/// reads them from an image; `None` where that fails.
pub uninterp spec fn log_location_keys(elf: Seq<u8>) -> Option<Set<u64>>;

/// The log table can be read without arithmetic overflow: the image is ELF
/// and every symbol lies at least 16 bytes below the top of the address
/// space (reading a table adds 16 to the address of its bitflags values).
pub open spec fn log_table_readable(elf: Seq<u8>) -> bool {
    &&& is_elf_magic(elf)
    &&& elf_symbols(elf) matches Some(s)
    &&& forall|i: int| 0 <= i < s.len() ==> #[trigger] s[i].1 <= u64::MAX - 16
}

/// Relies on `defmt_decoder::Table::parse` (with the table's `is_empty`
/// and `indices`): the log table of an ELF image, `None` where it has none;
/// an error where the table's encoding version is not supported.
#[verifier::external_body]
pub(crate) fn parse(elf: &[u8]) -> (r: Result<Option<ParsedTable>, anyhow::Error>)
    requires
        log_table_readable(elf@),
    ensures
        r is Ok <==> log_table_facts(elf@) is Some,
        r matches Ok(None) ==> log_table_facts(elf@) == Some(None::<(bool, Seq<usize>)>),
        r matches Ok(Some(t)) ==> log_table_facts(elf@) == Some(Some((t.is_empty, t.indices@))),
{
    Ok(
        defmt_decoder::Table::parse(elf)?.map(
            |table| ParsedTable {
                is_empty: table.is_empty(),
                indices: table.indices().collect(),
                table,
            },
        ),
    )
}

/// Relies on `defmt_decoder::Table::parse_ignore_version` (with the table's
/// `is_empty` and `indices`): as `parse`, but accepting any encoding version.
#[verifier::external_body]
pub(crate) fn parse_ignore_version(elf: &[u8]) -> (r: Result<Option<ParsedTable>, anyhow::Error>)
    requires
        log_table_readable(elf@),
    ensures
        r is Ok <==> log_table_facts_any_version(elf@) is Some,
        r matches Ok(None) ==> log_table_facts_any_version(elf@) == Some(
            None::<(bool, Seq<usize>)>,
        ),
        r matches Ok(Some(t)) ==> log_table_facts_any_version(elf@) == Some(
            Some((t.is_empty, t.indices@)),
        ),
{
    Ok(
        defmt_decoder::Table::parse_ignore_version(elf)?.map(
            |table| ParsedTable {
                is_empty: table.is_empty(),
                indices: table.indices().collect(),
                table,
            },
        ),
    )
}

/// Relies on `defmt_decoder::Table::get_locations`, for the table that
/// `Table::parse_ignore_version` reads from the same image (the version
/// check does not change the entries): the source location of each entry
/// that the image's debug information gives, by index.
#[verifier::external_body]
pub(crate) fn locations(elf: &[u8]) -> (r: Result<
    BTreeMap<u64, defmt_decoder::Location>,
    anyhow::Error,
>)
    requires
        log_table_readable(elf@),
    ensures
        r is Ok <==> log_location_keys(elf@) is Some,
        r matches Ok(m) ==> log_location_keys(elf@) == Some(m@.dom()),
{
    match defmt_decoder::Table::parse_ignore_version(elf)? {
        Some(table) => table.get_locations(elf),
        None => Err(anyhow::Error::msg("the image has no log table")),
    }
}

} // verus!
