//! The boot sequencer: the logic the hardware reset entry point performs, in
//! its required order, over the modeled working memory. Each step completes
//! before the next starts; the whole resulting memory is pinned by
//! `boot_image`, and the per-region correctness facts are proved from it.

use vstd::prelude::*;
use crate::ctors::run_constructors;
use crate::layout::MemoryLayout;
use crate::memory::{copy_region, copy_words, fill_region, region_filled, store_words};
use crate::STACK_GUARD_PATTERN;

verus! {

/// Working memory after the boot sequence, step by step: the initialized-
/// data image copied to its destination, the zero-initialized region
/// cleared, the words from the guard zone up to one below the stack pointer
/// cleared, the sentinel written across the guard zone, and the scratch
/// region cleared. Later steps overwrite earlier ones, exactly as executed.
pub open spec fn boot_image(mem: Seq<u32>, image: Seq<u32>, l: MemoryLayout) -> Seq<u32> {
    let after_copy = copy_words(
        mem,
        image,
        l.data_src as int,
        l.data_start as int,
        l.data_end - l.data_start,
    );
    let after_bss = store_words(after_copy, l.bss_start as int, l.bss_end as int, 0);
    let after_clear = store_words(after_bss, l.guard_start as int, l.stack_pointer - 1, 0);
    let after_guard = store_words(
        after_clear,
        l.guard_start as int,
        l.guard_end as int,
        STACK_GUARD_PATTERN,
    );
    store_words(after_guard, l.fill_start as int, l.fill_end as int, 0)
}

/// The reset entry point's logic. Runs the required memory-initialization
/// steps in order over `ram`, then walks the pre-init and init constructor
/// tables and returns the invocation order the runtime shell must follow;
/// transfer of control to the application is the shell's last act and never
/// returns there.
pub fn reset_handler(
    ram: &mut Vec<u32>,
    image: &Vec<u32>,
    l: &MemoryLayout,
    pre_init: &Vec<u64>,
    init: &Vec<u64>,
) -> (order: Vec<u64>)
    requires
        l.wf(old(ram).len() as int, image.len() as int),
    ensures
        final(ram)@ == boot_image(old(ram)@, image@, *l),
        final(ram).len() == old(ram).len(),
        order@ == pre_init@ + init@,
{
    copy_region(ram, image, l.data_src, l.data_start, l.data_end);
    fill_region(ram, l.bss_start, l.bss_end, 0);
    fill_region(ram, l.guard_start, l.stack_pointer - 1, 0);
    fill_region(ram, l.guard_start, l.guard_end, STACK_GUARD_PATTERN);
    fill_region(ram, l.fill_start, l.fill_end, 0);
    let mut order = run_constructors(pre_init, 0, pre_init.len());
    let mut rest = run_constructors(init, 0, init.len());
    order.append(&mut rest);
    proof {
        assert(order@ =~= pre_init@ + init@);
    }
    order
}

/// Copy correctness: after boot, every word of the initialized-data
/// destination equals the corresponding word of the program image.
pub proof fn lemma_boot_copies_data(mem: Seq<u32>, image: Seq<u32>, l: MemoryLayout)
    requires
        l.wf(mem.len() as int, image.len() as int),
    ensures
        forall|i: int|
            l.data_start <= i < l.data_end ==> boot_image(mem, image, l)[i] == image[l.data_src
                + (i - l.data_start)],
{
}

/// Zero correctness: after boot, every word of the zero-initialized region,
/// of the cleared span between the guard zone and the stack pointer, and of
/// the scratch region is zero.
pub proof fn lemma_boot_zeroes(mem: Seq<u32>, image: Seq<u32>, l: MemoryLayout)
    requires
        l.wf(mem.len() as int, image.len() as int),
    ensures
        forall|i: int| l.bss_start <= i < l.bss_end ==> boot_image(mem, image, l)[i] == 0,
        forall|i: int| l.guard_end <= i < l.stack_pointer - 1 ==> boot_image(mem, image, l)[i] == 0,
        forall|i: int| l.fill_start <= i < l.fill_end ==> boot_image(mem, image, l)[i] == 0,
{
}

/// Guard invariant: immediately after boot, every word of the guard zone
/// equals the sentinel.
pub proof fn lemma_boot_guard_intact(mem: Seq<u32>, image: Seq<u32>, l: MemoryLayout)
    requires
        l.wf(mem.len() as int, image.len() as int),
    ensures
        region_filled(
            boot_image(mem, image, l),
            l.guard_start as int,
            l.guard_end as int,
            STACK_GUARD_PATTERN,
        ),
{
}

/// The boot sequence writes nothing outside the regions the layout declares:
/// every other word keeps its prior value.
pub proof fn lemma_boot_preserves_rest(mem: Seq<u32>, image: Seq<u32>, l: MemoryLayout)
    requires
        l.wf(mem.len() as int, image.len() as int),
    ensures
        forall|i: int|
            0 <= i < mem.len() && !l.initialized(i) ==> boot_image(mem, image, l)[i] == mem[i],
{
}

/// Idempotence: re-running the boot sequence over the memory it produced,
/// with the same program image and layout, changes nothing — every word of
/// an initialized region is a function of the image and layout alone, and
/// every other word is untouched.
pub proof fn lemma_boot_idempotent(mem: Seq<u32>, image: Seq<u32>, l: MemoryLayout)
    requires
        l.wf(mem.len() as int, image.len() as int),
    ensures
        boot_image(boot_image(mem, image, l), image, l) == boot_image(mem, image, l),
{
    let once = boot_image(mem, image, l);
    assert(once.len() == mem.len());
    lemma_boot_preserves_rest(once, image, l);
    assert(boot_image(once, image, l) =~= once);
}

} // verus!
