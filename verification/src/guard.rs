//! The stack-guard subsystem: a reserved memory region pre-filled with a
//! sentinel word at boot, and a read-only check that scans it to detect
//! stack overflow. The check may run any number of times from any context;
//! on a detected corruption the surrounding system is expected to halt
//! visibly, never to continue.

use vstd::prelude::*;
use crate::boot::{boot_image, lemma_boot_guard_intact};
use crate::layout::MemoryLayout;
use crate::memory::region_filled;
use crate::STACK_GUARD_PATTERN;

verus! {

/// A guard zone: a memory region plus the sentinel its words were filled
/// with. Any word that deviates from the sentinel means the execution stack
/// has grown into the zone.
pub struct GuardZone {
    pub start: usize,
    pub end: usize,
    pub sentinel: u32,
}

impl GuardZone {
    /// The zone is a well-ordered region inside the given memory.
    pub open spec fn wf(self, ram_len: int) -> bool {
        self.start <= self.end <= ram_len
    }

    /// The guard zone the layout reserves, with the boot-time sentinel.
    pub fn of_layout(l: &MemoryLayout) -> (zone: GuardZone)
        ensures
            zone.start == l.guard_start,
            zone.end == l.guard_end,
            zone.sentinel == STACK_GUARD_PATTERN,
    {
        GuardZone { start: l.guard_start, end: l.guard_end, sentinel: STACK_GUARD_PATTERN }
    }
}

/// Scan the guard zone and report whether any word deviates from the
/// sentinel. Read-only; linear in the zone's size.
pub fn stack_guard_corrupted(ram: &Vec<u32>, zone: &GuardZone) -> (corrupted: bool)
    requires
        zone.wf(ram.len() as int),
    ensures
        corrupted == !region_filled(ram@, zone.start as int, zone.end as int, zone.sentinel),
{
    let mut i: usize = zone.start;
    while i < zone.end
        invariant
            zone.start <= i <= zone.end <= ram.len(),
            forall|j: int| zone.start <= j < i ==> ram@[j] == zone.sentinel,
        decreases zone.end - i,
    {
        if ram[i] != zone.sentinel {
            assert(!region_filled(ram@, zone.start as int, zone.end as int, zone.sentinel)) by {
                assert(ram@[i as int] != zone.sentinel);
            }
            return true;
        }
        i = i + 1;
    }
    false
}

/// Guard check soundness: against the memory the boot sequence produced, a
/// scan of the guard zone reports no corruption; and for any later memory
/// state of the same size, the scan reports no corruption exactly when no
/// word of the guard zone has changed since boot.
pub proof fn lemma_guard_check_sound(
    mem: Seq<u32>,
    image: Seq<u32>,
    l: MemoryLayout,
    later: Seq<u32>,
)
    requires
        l.wf(mem.len() as int, image.len() as int),
        later.len() == mem.len(),
    ensures
        region_filled(
            boot_image(mem, image, l),
            l.guard_start as int,
            l.guard_end as int,
            STACK_GUARD_PATTERN,
        ),
        region_filled(later, l.guard_start as int, l.guard_end as int, STACK_GUARD_PATTERN)
            <==> (forall|i: int|
            l.guard_start <= i < l.guard_end ==> later[i] == boot_image(mem, image, l)[i]),
{
    lemma_boot_guard_intact(mem, image, l);
}

} // verus!
