use probe_run::backtrace::{collapse_frames, Frame};
use probe_run::elf::object_file::SymbolEntry;
use probe_run::elf::{extract_defmt_info, live_functions, symbols_below_top, ElfError};
use probe_run::paths::{relative_path, shorten_path};
use probe_run::unwind::{
    offset_address, reset_handler_range, CfiResult, StackedFrame, UnwindAction, UnwindLimits,
    Unwinder,
};

fn frame(pc: u32, name: &str, file: Option<&str>, line: Option<u32>) -> Frame {
    Frame { pc: Some(pc), name: name.to_string(), file: file.map(String::from), line }
}

#[test]
fn adjacent_frames_at_one_place_are_collapsed() {
    let frames = vec![
        frame(0x100, "app::f", Some("src/main.rs"), Some(3)),
        frame(0x100, "app::f", Some("src/main.rs"), Some(3)),
        frame(0x104, "app::g", Some("src/main.rs"), Some(9)),
        frame(0x108, "app::f", Some("src/main.rs"), Some(3)),
        frame(0x10C, "app::f", Some("src/main.rs"), Some(4)),
    ];
    let out = collapse_frames(&frames);
    let pcs: Vec<Option<u32>> = out.iter().map(|f| f.pc).collect();
    assert_eq!(pcs, vec![Some(0x100), Some(0x104), Some(0x108), Some(0x10C)]);
    assert!(collapse_frames(&vec![]).is_empty());
}

#[test]
fn addresses_from_offsets() {
    assert_eq!(offset_address(0x2000_0000, 16), Some(0x2000_0010));
    assert_eq!(offset_address(0x2000_0010, -16), Some(0x2000_0000));
    assert_eq!(offset_address(8, -16), None);
    assert_eq!(offset_address(0xFFFF_FFF0, 0x20), None);
    assert_eq!(offset_address(0, i64::MAX), None);
}

#[test]
fn reset_handler_range_from_symbol_size() {
    assert_eq!(reset_handler_range(0x101, 0x40), (0x100, 0x140));
    assert_eq!(reset_handler_range(0xFFFF_FFF1, 0x40), (0xFFFF_FFF0, 0xFFFF_FFFF));
}

#[test]
fn exception_frame_continues_at_the_stacked_pc() {
    let limits = UnwindLimits { stack_start: 0x2004_0000, reset_start: 0x100, reset_end: 0x140, max_frames: 50 };
    let mut u = Unwinder::new(0xA00, 0x2003_FF00, 0xFFFF_FFF9, Some(3), limits);
    u.on_cfi(Some(CfiResult { cfa: 0x2003_FF00, lr: 0xFFFF_FFF9 }));
    let a = u.on_exception_frame(Some(StackedFrame { pc: 0x452, lr: 0x301, xpsr: 0x0100_0013 }));
    assert_eq!(a, UnwindAction::EvaluateCfi { pc: 0x452, sp: 0x2003_FF20, lr: 0x301 });
    assert_eq!(u.exception_number, Some(0x13));
    assert!(!u.corrupted);
}

#[test]
fn unreadable_exception_frame_is_corruption() {
    let limits = UnwindLimits { stack_start: 0x2004_0000, reset_start: 0x100, reset_end: 0x140, max_frames: 50 };
    let mut u = Unwinder::new(0xA00, 0x2003_FF00, 0xFFFF_FFF9, Some(3), limits);
    u.on_cfi(Some(CfiResult { cfa: 0x2003_FF00, lr: 0xFFFF_FFF9 }));
    assert_eq!(u.on_exception_frame(None), UnwindAction::Finished);
    assert!(u.corrupted);
}

#[test]
fn stack_pointer_above_the_stack_records_nothing() {
    let limits = UnwindLimits { stack_start: 0x2004_0000, reset_start: 0x100, reset_end: 0x140, max_frames: 50 };
    let mut u = Unwinder::new(0x400, 0x2004_0100, 0x301, None, limits);
    assert_eq!(u.on_cfi(Some(CfiResult { cfa: 0x2004_0110, lr: 0x301 })), UnwindAction::Finished);
    assert!(u.frames.is_empty());
    assert!(!u.corrupted);
}

#[test]
fn paths_relative_to_root_or_trailing_slash() {
    assert_eq!(relative_path("/src/main.rs", "/"), "src/main.rs");
    assert_eq!(relative_path("/home/u/p/src/main.rs", "/home/u/p/"), "src/main.rs");
    assert_eq!(relative_path("/home/u/p//src/main.rs", "/home/u/p"), "src/main.rs");
    assert_eq!(relative_path("/home/u/p", "/home/u/p"), "/home/u/p");
    assert_eq!(shorten_path("/home/u/p//src/main.rs", "/home/u/p/"), "src/main.rs");
    let once = shorten_path("/home/u/p//src/main.rs", "/");
    assert_eq!(once, "home/u/p//src/main.rs");
    assert_eq!(shorten_path(&once, "/"), once);
}

#[test]
fn live_function_names_are_distinct() {
    let syms = vec![
        SymbolEntry { name: Some("f".to_string()), address: 0x100, section: Some(1) },
        SymbolEntry { name: Some("g".to_string()), address: 0x110, section: Some(1) },
        SymbolEntry { name: Some("f".to_string()), address: 0x120, section: Some(1) },
    ];
    assert_eq!(live_functions(&syms, 1), Ok(vec!["f".to_string(), "g".to_string()]));
}

#[test]
fn symbols_near_the_top_are_refused() {
    let near = vec![SymbolEntry { name: None, address: u64::MAX - 8, section: None }];
    assert!(!symbols_below_top(&near));
    let fine = vec![SymbolEntry { name: None, address: u64::MAX - 16, section: None }];
    assert!(symbols_below_top(&fine));
}

#[test]
fn log_table_of_non_elf_bytes_is_an_error() {
    assert!(matches!(extract_defmt_info(&[0, 1, 2, 3, 4], false), Err(ElfError::LogTable)));
}
