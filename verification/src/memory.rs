//! Word-level region primitives. These are the only operations the boot
//! sequence performs on raw memory: copying a region of the program image
//! into working memory, and filling a region with one word value.

use vstd::prelude::*;

verus! {

/// `mem` with the words at `[dst, dst + n)` replaced by the words of
/// `image` starting at `src`; every other word unchanged.
pub open spec fn copy_words(mem: Seq<u32>, image: Seq<u32>, src: int, dst: int, n: int) -> Seq<
    u32,
> {
    Seq::new(mem.len(), |i: int| if dst <= i < dst + n {
        image[src + (i - dst)]
    } else {
        mem[i]
    })
}

/// `mem` with every word at `[start, end)` replaced by `val`; every other
/// word unchanged.
pub open spec fn store_words(mem: Seq<u32>, start: int, end: int, val: u32) -> Seq<u32> {
    Seq::new(mem.len(), |i: int| if start <= i < end {
        val
    } else {
        mem[i]
    })
}

/// Every word of `mem` at `[start, end)` equals `val`.
pub open spec fn region_filled(mem: Seq<u32>, start: int, end: int, val: u32) -> bool {
    forall|i: int| start <= i < end ==> mem[i] == val
}

/// Copy `image[src..src + (end - dst)]` word-by-word into `ram[dst..end]`.
pub fn copy_region(ram: &mut Vec<u32>, image: &Vec<u32>, src: usize, dst: usize, end: usize)
    requires
        dst <= end <= old(ram).len(),
        src + (end - dst) <= image.len(),
    ensures
        final(ram)@ == copy_words(old(ram)@, image@, src as int, dst as int, end - dst),
{
    let mut i: usize = dst;
    while i < end
        invariant
            dst <= i <= end <= ram.len(),
            ram.len() == old(ram).len(),
            src + (end - dst) <= image.len(),
            forall|j: int| dst <= j < i ==> ram@[j] == image@[src + (j - dst)],
            forall|j: int| 0 <= j < ram.len() && !(dst <= j < i) ==> ram@[j] == old(ram)@[j],
        decreases end - i,
    {
        let w = image[src + (i - dst)];
        ram[i] = w;
        i = i + 1;
    }
    proof {
        assert(ram@ =~= copy_words(old(ram)@, image@, src as int, dst as int, end - dst));
    }
}

/// Fill `ram[start..end]` with `val`, word-by-word.
pub fn fill_region(ram: &mut Vec<u32>, start: usize, end: usize, val: u32)
    requires
        start <= end <= old(ram).len(),
    ensures
        final(ram)@ == store_words(old(ram)@, start as int, end as int, val),
{
    let mut i: usize = start;
    while i < end
        invariant
            start <= i <= end <= ram.len(),
            ram.len() == old(ram).len(),
            forall|j: int| start <= j < i ==> ram@[j] == val,
            forall|j: int| 0 <= j < ram.len() && !(start <= j < i) ==> ram@[j] == old(ram)@[j],
        decreases end - i,
    {
        ram[i] = val;
        i = i + 1;
    }
    proof {
        assert(ram@ =~= store_words(old(ram)@, start as int, end as int, val));
    }
}

} // verus!
