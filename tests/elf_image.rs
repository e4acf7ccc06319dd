//! Reads a small hand-built ELF image through the library.
use probe_run::elf::{Elf, ElfError};
use probe_run::target_info::DataSection;

struct Section {
    name: &'static str,
    kind: u32,
    flags: u32,
    addr: u32,
    data: Vec<u8>,
    link: u32,
    info: u32,
    entsize: u32,
}

fn le(v: u32) -> [u8; 4] {
    v.to_le_bytes()
}

fn symbol(name_offset: u32, value: u32, shndx: u16) -> Vec<u8> {
    let mut s = Vec::new();
    s.extend_from_slice(&le(name_offset));
    s.extend_from_slice(&le(value));
    s.extend_from_slice(&le(0));
    s.push(0x12); // global function
    s.push(0);
    s.extend_from_slice(&shndx.to_le_bytes());
    s
}

/// An ELF32 ARM image with a vector table, `.text`, `.data`, and the symbols
/// `main`, `helper` (in `.text`) and `_SEGGER_RTT` (in `.data`).
fn image(with_vector_table: bool, extra_symbol: Option<&str>) -> Vec<u8> {
    let mut strtab = vec![0u8];
    let mut names = vec![];
    for n in ["main", "helper", "_SEGGER_RTT"].iter().copied().chain(extra_symbol) {
        names.push(strtab.len() as u32);
        strtab.extend_from_slice(n.as_bytes());
        strtab.push(0);
    }
    let text_index: u16 = if with_vector_table { 2 } else { 1 };
    let data_index = text_index + 1;
    let mut symtab = vec![0u8; 16];
    symtab.extend(symbol(names[0], 0x0000_0101, text_index));
    symtab.extend(symbol(names[1], 0x0000_0111, text_index));
    symtab.extend(symbol(names[2], 0x2000_0000, data_index));
    if extra_symbol.is_some() {
        symtab.extend(symbol(names[3], 0x0000_0121, text_index));
    }

    let mut sections = vec![];
    if with_vector_table {
        let mut vt = vec![];
        for w in [0x2004_0000u32, 0x0000_0131, 0x0000_0141, 0x0000_0151] {
            vt.extend_from_slice(&le(w));
        }
        sections.push(Section { name: ".vector_table", kind: 1, flags: 2, addr: 0, data: vt, link: 0, info: 0, entsize: 0 });
    }
    sections.push(Section { name: ".text", kind: 1, flags: 6, addr: 0x100, data: vec![0; 0x60], link: 0, info: 0, entsize: 0 });
    sections.push(Section { name: ".data", kind: 1, flags: 3, addr: 0x2000_0000, data: vec![0; 0x40], link: 0, info: 0, entsize: 0 });
    let strtab_index = sections.len() as u32 + 2;
    sections.push(Section { name: ".symtab", kind: 2, flags: 0, addr: 0, data: symtab, link: strtab_index, info: 1, entsize: 16 });
    sections.push(Section { name: ".strtab", kind: 3, flags: 0, addr: 0, data: strtab, link: 0, info: 0, entsize: 0 });

    let mut shstrtab = vec![0u8];
    let mut sh_names = vec![];
    for s in &sections {
        sh_names.push(shstrtab.len() as u32);
        shstrtab.extend_from_slice(s.name.as_bytes());
        shstrtab.push(0);
    }
    let shstrtab_name = shstrtab.len() as u32;
    shstrtab.extend_from_slice(b".shstrtab\0");
    sections.push(Section { name: ".shstrtab", kind: 3, flags: 0, addr: 0, data: shstrtab, link: 0, info: 0, entsize: 0 });
    sh_names.push(shstrtab_name);

    // section contents follow the header, headers follow the contents
    let mut body = vec![];
    let mut offsets = vec![];
    for s in &sections {
        while body.len() % 4 != 0 {
            body.push(0);
        }
        offsets.push(52 + body.len() as u32);
        body.extend_from_slice(&s.data);
    }
    while body.len() % 4 != 0 {
        body.push(0);
    }
    let shoff = 52 + body.len() as u32;
    let shnum = sections.len() as u16 + 1;

    let mut out = vec![0x7f, b'E', b'L', b'F', 1, 1, 1, 0, 0, 0, 0, 0, 0, 0, 0, 0];
    out.extend_from_slice(&2u16.to_le_bytes()); // executable
    out.extend_from_slice(&40u16.to_le_bytes()); // ARM
    out.extend_from_slice(&le(1));
    out.extend_from_slice(&le(0x131)); // entry
    out.extend_from_slice(&le(0)); // no program headers
    out.extend_from_slice(&le(shoff));
    out.extend_from_slice(&le(0x0500_0200));
    out.extend_from_slice(&52u16.to_le_bytes());
    out.extend_from_slice(&32u16.to_le_bytes());
    out.extend_from_slice(&0u16.to_le_bytes());
    out.extend_from_slice(&40u16.to_le_bytes());
    out.extend_from_slice(&shnum.to_le_bytes());
    out.extend_from_slice(&(shnum - 1).to_le_bytes());
    out.extend(body);

    out.extend(vec![0u8; 40]);
    for (i, s) in sections.iter().enumerate() {
        let size = s.data.len() as u32;
        for v in [sh_names[i], s.kind, s.flags, s.addr, offsets[i], size, s.link, s.info, 4, s.entsize] {
            out.extend_from_slice(&le(v));
        }
    }
    out
}

#[test]
fn image_is_read() {
    let elf = Elf::parse(&image(true, None), false).unwrap();
    assert_eq!(elf.vector_table.location, 0);
    assert_eq!(elf.vector_table.initial_stack_pointer, 0x2004_0000);
    assert_eq!(elf.vector_table.reset, 0x131);
    assert_eq!(elf.vector_table.hard_fault, 0x151);
    assert_eq!(elf.main_function_address, 0x100);
    assert_eq!(elf.rtt_buffer_address(), Some(0x2000_0000));
    assert!(!elf.program_uses_heap());
    assert_eq!(elf.live_functions, vec!["main".to_string(), "helper".to_string()]);
    assert_eq!(elf.static_data, vec![DataSection { address: 0x2000_0000, size: 0x40 }]);
    assert!(elf.debug_frame.is_none());
    assert!(elf.log_table.is_none());
    assert_eq!(elf.program_size, 0);
}

#[test]
fn heap_symbol_disables_canary() {
    let elf = Elf::parse(&image(true, Some("__rust_alloc")), false).unwrap();
    assert!(elf.program_uses_heap());
    assert_eq!(elf.live_functions.len(), 3);
}

#[test]
fn missing_vector_table_is_an_error() {
    assert!(matches!(Elf::parse(&image(false, None), false), Err(ElfError::MissingVectorTable)));
}

#[test]
fn image_without_log_table() {
    assert!(matches!(probe_run::elf::extract_defmt_info(&image(true, None), false), Ok(None)));
    assert!(matches!(probe_run::elf::extract_defmt_info(&image(true, None), true), Ok(None)));
}

#[test]
fn missing_text_is_an_error() {
    let mut bytes = image(true, None);
    // rename `.text` in the section-name table
    let pos = bytes.windows(6).position(|w| w == b".text\0").unwrap();
    bytes[pos + 1] = b'x';
    assert!(matches!(Elf::parse(&bytes, false), Err(ElfError::MissingText)));
}
