use probe_run::target_info::{stack_info, DataSection, MemoryKind, MemoryRegion, StackInfo};

fn ram(start: u32, end: u32) -> MemoryRegion {
    MemoryRegion { start, end, kind: MemoryKind::Ram }
}

#[test]
fn stack_region_above_static_data() {
    let map = vec![
        MemoryRegion { start: 0, end: 0x10_0000, kind: MemoryKind::Flash },
        ram(0x2000_0000, 0x2004_0000),
    ];
    let data = vec![
        DataSection { address: 0x2000_0000, size: 0x100 },
        DataSection { address: 0x2000_0100, size: 0x40 },
    ];
    assert_eq!(
        stack_info(0x2004_0000, &map, &data),
        Some(StackInfo { range_start: 0x2000_0140, range_end: 0x2004_0000, data_below_stack: true })
    );
}

#[test]
fn stack_region_below_static_data() {
    // flip-link layout: the stack sits at the bottom of RAM, the data above it
    let map = vec![ram(0x2000_0000, 0x2004_0000)];
    let data = vec![DataSection { address: 0x2003_0000, size: 0x100 }];
    assert_eq!(
        stack_info(0x2003_0000, &map, &data),
        Some(StackInfo { range_start: 0x2000_0000, range_end: 0x2003_0000, data_below_stack: false })
    );
}

#[test]
fn no_stack_region_outside_ram() {
    let map = vec![MemoryRegion { start: 0, end: 0x10_0000, kind: MemoryKind::Flash }];
    assert_eq!(stack_info(0x1000, &map, &vec![]), None);
    assert_eq!(stack_info(0, &vec![ram(0, 0x100)], &vec![]), None);
}

#[test]
fn first_ram_region_holding_the_stack_pointer_counts() {
    let map = vec![ram(0x1000_0000, 0x1001_0000), ram(0x2000_0000, 0x2001_0000)];
    let info = stack_info(0x2001_0000, &map, &vec![]).unwrap();
    assert_eq!(info.range_start, 0x2000_0000);
    assert!(!info.data_below_stack);
}
