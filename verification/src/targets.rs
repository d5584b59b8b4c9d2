//! Per-chip target data. A target variant fixes the vector table's length
//! and which slots the hardware reserves; everything else about the table is
//! target-independent.

use vstd::prelude::*;
use crate::vectors::{is_mandatory, Target};

verus! {

/// Declared exception+interrupt slot count of the STM32G431 variant.
pub const STM32G431_VECTOR_COUNT: usize = 117;

/// The slots the STM32G431 hardware reserves: no interrupt line is wired to
/// them, so the table must carry the explicit absent marker there.
pub open spec fn stm32g431_reserved(i: int) -> bool {
    ||| 6 <= i <= 9
    ||| i == 11
    ||| i == 12
    ||| i == 32
    ||| i == 62
    ||| i == 63
    ||| i == 65
    ||| i == 68
    ||| i == 76
    ||| i == 77
    ||| 82 <= i <= 89
    ||| 97 <= i <= 99
    ||| 101 <= i <= 104
    ||| i == 110
    ||| i == 111
    ||| i == 113
    ||| i == 114
}

/// Whether the STM32G431 reserves slot `i`, decided at run time.
pub fn stm32g431_slot_reserved(i: usize) -> (r: bool)
    ensures
        r == stm32g431_reserved(i as int),
{
    (6 <= i && i <= 9) || i == 11 || i == 12 || i == 32 || i == 62 || i == 63 || i == 65 || i == 68
        || i == 76 || i == 77 || (82 <= i && i <= 89) || (97 <= i && i <= 99) || (101 <= i && i
        <= 104) || i == 110 || i == 111 || i == 113 || i == 114
}

/// The STM32G431 target: 117 slots, with exactly the hardware-reserved ones
/// marked, and every mandatory core-exception slot available.
pub fn stm32g431_target() -> (t: Target)
    ensures
        t.wf(),
        t.count == STM32G431_VECTOR_COUNT,
        forall|i: int| 0 <= i < t.count ==> #[trigger] t.reserved@[i] == stm32g431_reserved(i),
{
    let mut reserved: Vec<bool> = Vec::new();
    let mut i: usize = 0;
    while i < STM32G431_VECTOR_COUNT
        invariant
            i <= STM32G431_VECTOR_COUNT,
            reserved@.len() == i,
            forall|j: int| 0 <= j < i ==> reserved@[j] == stm32g431_reserved(j),
        decreases STM32G431_VECTOR_COUNT - i,
    {
        reserved.push(stm32g431_slot_reserved(i));
        i = i + 1;
    }
    let t = Target { count: STM32G431_VECTOR_COUNT, reserved };
    proof {
        assert forall|j: int| is_mandatory(j) implies !t.reserved@[j] by {
            assert(!stm32g431_reserved(j));
        }
    }
    t
}

} // verus!
