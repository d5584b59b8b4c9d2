use boot_guard::boot::reset_handler;
use boot_guard::guard::{stack_guard_corrupted, GuardZone};
use boot_guard::layout::MemoryLayout;
use boot_guard::STACK_GUARD_PATTERN;

#[test]
fn sentinel_is_the_reference_pattern() {
    assert_eq!(STACK_GUARD_PATTERN, 0xCAFECAFE);
}

#[test]
fn clean_guard_zone_reports_no_corruption() {
    let ram = vec![0xCAFECAFEu32; 16];
    let zone = GuardZone { start: 0, end: 16, sentinel: 0xCAFECAFE };
    assert!(!stack_guard_corrupted(&ram, &zone));
}

#[test]
fn overwritten_guard_word_reports_corruption() {
    let mut ram = vec![0xCAFECAFEu32; 16];
    ram[5] = 0;
    let zone = GuardZone { start: 0, end: 16, sentinel: 0xCAFECAFE };
    assert!(stack_guard_corrupted(&ram, &zone));
}

#[test]
fn empty_guard_zone_reports_no_corruption() {
    let ram = vec![0u32; 4];
    let zone = GuardZone { start: 2, end: 2, sentinel: 0xCAFECAFE };
    assert!(!stack_guard_corrupted(&ram, &zone));
}

#[test]
fn guard_zone_scan_is_bounded_to_the_zone() {
    let mut ram = vec![0xCAFECAFEu32; 8];
    ram[0] = 1;
    ram[7] = 2;
    let zone = GuardZone { start: 1, end: 7, sentinel: 0xCAFECAFE };
    assert!(!stack_guard_corrupted(&ram, &zone));
}

#[test]
fn guard_survives_boot_until_overwritten() {
    let layout = MemoryLayout {
        data_src: 0,
        data_start: 0,
        data_end: 2,
        bss_start: 2,
        bss_end: 4,
        guard_start: 4,
        guard_end: 8,
        fill_start: 10,
        fill_end: 12,
        stack_pointer: 10,
    };
    let image = vec![3u32, 4];
    let mut ram = vec![1u32; 12];
    let none: Vec<u64> = Vec::new();
    reset_handler(&mut ram, &image, &layout, &none, &none);
    let zone = GuardZone::of_layout(&layout);
    assert_eq!(zone.start, 4);
    assert_eq!(zone.end, 8);
    assert_eq!(zone.sentinel, STACK_GUARD_PATTERN);
    assert!(!stack_guard_corrupted(&ram, &zone));
    ram[6] = 0xDEADBEEF;
    assert!(stack_guard_corrupted(&ram, &zone));
}
