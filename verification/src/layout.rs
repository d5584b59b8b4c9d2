//! The memory-layout contract: named word-index boundaries produced by the
//! external linker/layout description. The boot sequence is verified against
//! a layout that satisfies `wf`, mirroring the build-time placement contract
//! (regions in order, the guard zone contiguous between the end of the
//! zero-initialized region and the stack).

use vstd::prelude::*;

verus! {

/// Word-index boundaries of every region the boot sequence touches.
///
/// `data_src` indexes into the flash-resident program image; all other
/// fields index into working memory. Each `start`/`end` pair is half-open.
pub struct MemoryLayout {
    /// First word of the initialized-data image inside the program image.
    pub data_src: usize,
    /// Destination of the initialized-data image in working memory.
    pub data_start: usize,
    pub data_end: usize,
    /// Zero-initialized region.
    pub bss_start: usize,
    pub bss_end: usize,
    /// Stack-guard zone, filled with the sentinel at boot.
    pub guard_start: usize,
    pub guard_end: usize,
    /// Additional scratch region zeroed at boot.
    pub fill_start: usize,
    pub fill_end: usize,
    /// Stack pointer the hardware established on reset; the boot sequence
    /// zeroes up to one word below it and never writes at or above it.
    pub stack_pointer: usize,
}

impl MemoryLayout {
    /// The placement contract the external layout description must satisfy:
    /// each region is well-ordered (`end >= start`), the regions are laid
    /// out without overlap, the guard zone starts exactly where the
    /// zero-initialized region ends and lies strictly below the stack
    /// pointer, and everything fits inside the given memories.
    pub open spec fn wf(self, ram_len: int, flash_len: int) -> bool {
        &&& self.data_start <= self.data_end
        &&& self.data_end <= self.bss_start
        &&& self.bss_start <= self.bss_end
        &&& self.bss_end == self.guard_start
        &&& self.guard_start <= self.guard_end
        &&& self.guard_end < self.stack_pointer
        &&& self.stack_pointer <= ram_len
        &&& self.guard_end <= self.fill_start
        &&& self.fill_start <= self.fill_end
        &&& self.fill_end <= ram_len
        &&& self.data_src + (self.data_end - self.data_start) <= flash_len
    }

    /// Word indices the boot sequence writes: the data destination, the
    /// zero-initialized region, everything from the guard zone up to one
    /// word below the stack pointer, and the scratch region.
    pub open spec fn initialized(self, i: int) -> bool {
        ||| self.data_start <= i < self.data_end
        ||| self.bss_start <= i < self.bss_end
        ||| self.guard_start <= i < self.stack_pointer - 1
        ||| self.fill_start <= i < self.fill_end
    }
}

} // verus!
