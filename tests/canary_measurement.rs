use probe_run::canary::{measure_subroutine, paint_subroutine, Canary, CANARY_U32, CANARY_U8};
use probe_run::target_info::StackInfo;

fn stack(start: u32, end: u32, data_below_stack: bool) -> Option<StackInfo> {
    Some(StackInfo { range_start: start, range_end: end, data_below_stack })
}

#[test]
fn no_canary_without_stack_region() {
    assert!(Canary::prepare(false, &None).is_none());
}

#[test]
fn no_canary_with_heap() {
    assert!(Canary::prepare(true, &stack(0x2000_0000, 0x2004_0000, false)).is_none());
}

#[test]
fn no_canary_when_subroutines_do_not_fit() {
    assert!(Canary::prepare(false, &stack(0x2000_0000, 0x2000_0010, false)).is_none());
    assert!(Canary::prepare(false, &stack(0x2000_0000, 0x2000_0014, false)).is_some());
}

#[test]
fn canary_covers_the_stack_region() {
    let c = Canary::prepare(false, &stack(0x2000_1000, 0x2004_0000, true)).unwrap();
    assert_eq!(c.addr(), 0x2000_1000);
    assert_eq!(c.size(), 0x3_F000);
    assert!(c.data_below_stack());
}

#[test]
fn subroutine_blobs() {
    assert_eq!(
        paint_subroutine::subroutine(),
        vec![0x88, 0x42, 0x01, 0xd8, 0x04, 0xc0, 0xfb, 0xe7, 0x00, 0xbe, 0x00, 0xbe]
    );
    assert_eq!(
        measure_subroutine::subroutine(),
        vec![
            0x88, 0x42, 0x04, 0xd2, 0x03, 0x68, 0x93, 0x42, 0x02, 0xd1, 0x00, 0x1d, 0xf8, 0xe7,
            0x00, 0x20, 0x00, 0xbe, 0x00, 0xbe
        ]
    );
    assert_eq!(paint_subroutine::size(), 12);
    assert_eq!(measure_subroutine::size(), 20);
    assert_eq!(paint_subroutine::size() % 4, 0);
    assert_eq!(measure_subroutine::size() % 4, 0);
    let c = Canary::prepare(false, &stack(0x2000_0000, 0x2000_0400, false)).unwrap();
    assert!(paint_subroutine::size() < c.size());
    assert!(measure_subroutine::size() < c.size());
}

#[test]
fn subroutine_calls_skip_their_own_code() {
    let c = Canary::prepare(false, &stack(0x2000_0000, 0x2000_0400, false)).unwrap();
    let paint = c.paint_call();
    assert_eq!(paint.load_addr, 0x2000_0000);
    assert_eq!(paint.r0, 0x2000_000C);
    assert_eq!(paint.r1, 0x2000_0400);
    assert_eq!(paint.r2, 0xAAAA_AAAA);
    assert_eq!(paint.code, paint_subroutine::subroutine());
    let measure = c.measure_call();
    assert_eq!(measure.r0, 0x2000_0014);
    assert_eq!(measure.r1, 0x2000_0400);
    assert_eq!(measure.r2, CANARY_U32);
    assert_eq!(measure.code, measure_subroutine::subroutine());
    assert_eq!(Canary::overwrite_bytes(), vec![CANARY_U8; 12]);
}

#[test]
fn window_search_finds_lowest_touched_byte() {
    let mut w = vec![0xAA; 20];
    assert_eq!(measure_subroutine::touched_in_window(0x2000_0000, &w), None);
    w[7] = 0x00;
    w[12] = 0x01;
    assert_eq!(measure_subroutine::touched_in_window(0x2000_0000, &w), Some(0x2000_0007));
}

#[test]
fn word_search_finds_lowest_touched_byte() {
    assert_eq!(measure_subroutine::touched_in_word(0, 0xAAAA_AAAA), None);
    assert_eq!(measure_subroutine::touched_in_word(0x2000_0100, 0x12AA_AAAA), Some(0x2000_0103));
    assert_eq!(measure_subroutine::touched_in_word(0x2000_0100, 0xAAAA_AA00), Some(0x2000_0100));
    assert_eq!(measure_subroutine::touched_in_word(0x2000_0100, 0xAAAA_00AA), Some(0x2000_0101));
}

#[test]
fn untouched_stack_has_zero_usage() {
    let c = Canary::prepare(false, &stack(0x2000_0000, 0x2000_0400, true)).unwrap();
    let u = c.measure(0x2000_0400, None);
    assert_eq!(u.used, 0);
    assert_eq!(u.size, 0x400);
    assert!(!u.near_limit);
    assert!(!u.overflow_likely);
}

#[test]
fn ninety_percent_is_the_limit() {
    let c = Canary::prepare(false, &stack(0x2000_0000, 0x2000_0400, true)).unwrap();
    // 921 of 1024 bytes is 89.9%; 922 is 90.04%.
    let below = c.measure(0x2000_0400, Some(0x2000_0400 - 921));
    assert_eq!(below.used, 921);
    assert!(!below.near_limit);
    let above = c.measure(0x2000_0400, Some(0x2000_0400 - 922));
    assert_eq!(above.used, 922);
    assert!(above.near_limit);
    assert!(above.overflow_likely);
}

#[test]
fn overflow_needs_data_below_the_stack() {
    let c = Canary::prepare(false, &stack(0x2000_0000, 0x2000_0400, false)).unwrap();
    let u = c.measure(0x2000_0400, Some(0x2000_0000));
    assert_eq!(u.used, 0x400);
    assert!(u.near_limit);
    assert!(!u.overflow_likely);
}

#[test]
fn measuring_a_painted_region_round_trip() {
    // a region as the probe sees it: painted, then touched from the top
    let c = Canary::prepare(false, &stack(0x2000_0000, 0x2000_0100, false)).unwrap();
    let mut mem = vec![0xAAu8; 0x100];
    let window = &mem[..20];
    assert_eq!(measure_subroutine::touched_in_window(0x2000_0000, window), None);
    assert_eq!(c.measure(0x2000_0100, None).used, 0);
    mem[0xF1] = 0x55;
    // the measure subroutine would stop at the word at 0xF0
    let word = u32::from_le_bytes([mem[0xF0], mem[0xF1], mem[0xF2], mem[0xF3]]);
    let touched = measure_subroutine::touched_in_word(0x2000_00F0, word);
    assert_eq!(touched, Some(0x2000_00F1));
    assert_eq!(c.measure(0x2000_0100, touched).used, 0x0F);
}
