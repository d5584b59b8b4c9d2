use boot_guard::boot::reset_handler;
use boot_guard::layout::MemoryLayout;

fn small_layout() -> MemoryLayout {
    MemoryLayout {
        data_src: 0,
        data_start: 0,
        data_end: 2,
        bss_start: 2,
        bss_end: 3,
        guard_start: 3,
        guard_end: 5,
        fill_start: 6,
        fill_end: 7,
        stack_pointer: 6,
    }
}

#[test]
fn boot_initializes_every_region() {
    let layout = small_layout();
    let image = vec![7u32, 8];
    let mut ram = vec![9u32; 8];
    let none: Vec<u64> = Vec::new();
    let order = reset_handler(&mut ram, &image, &layout, &none, &none);
    assert_eq!(ram, vec![7, 8, 0, 0xCAFECAFE, 0xCAFECAFE, 9, 0, 9]);
    assert_eq!(order, Vec::<u64>::new());
}

#[test]
fn boot_is_idempotent() {
    let layout = small_layout();
    let image = vec![11u32, 22];
    let mut ram = vec![5u32; 8];
    let none: Vec<u64> = Vec::new();
    reset_handler(&mut ram, &image, &layout, &none, &none);
    let after_first = ram.clone();
    reset_handler(&mut ram, &image, &layout, &none, &none);
    assert_eq!(ram, after_first);
}

#[test]
fn boot_runs_pre_init_before_init() {
    let layout = small_layout();
    let image = vec![1u32, 2];
    let mut ram = vec![0u32; 8];
    let pre_init = vec![1u64, 2];
    let init = vec![3u64];
    let order = reset_handler(&mut ram, &image, &layout, &pre_init, &init);
    assert_eq!(order, vec![1, 2, 3]);
}

#[test]
fn boot_with_empty_data_image() {
    let layout = MemoryLayout {
        data_src: 0,
        data_start: 1,
        data_end: 1,
        bss_start: 1,
        bss_end: 2,
        guard_start: 2,
        guard_end: 3,
        fill_start: 3,
        fill_end: 3,
        stack_pointer: 4,
    };
    let image: Vec<u32> = Vec::new();
    let mut ram = vec![6u32; 4];
    let none: Vec<u64> = Vec::new();
    reset_handler(&mut ram, &image, &layout, &none, &none);
    assert_eq!(ram, vec![6, 0, 0xCAFECAFE, 6]);
}
