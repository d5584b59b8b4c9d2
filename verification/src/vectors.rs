//! The interrupt/exception vector table: a fixed-length, address-ordered
//! table mapping each exception or interrupt number to a handler reference.
//! Construction guarantees that slot 0 resolves to the reset entry point,
//! that every mandatory core-exception slot holds a concrete handler, that
//! reserved slots carry an explicit absent marker (so the hardware's own
//! fault path handles them, never a dangling address), and that every other
//! slot without an application-supplied handler resolves to one shared
//! fallback handler.

use vstd::prelude::*;

verus! {

/// A handler reference: one of the core-exception handlers, the shared
/// fallback (a visible permanent trap), or a device-specific handler
/// identified by number.
#[derive(Clone, Copy, Debug, PartialEq, Eq, Structural)]
pub enum Handler {
    Reset,
    Nmi,
    HardFault,
    MemManage,
    BusFault,
    UsageFault,
    SvCall,
    PendSv,
    SysTick,
    Fallback,
    Device(usize),
}

/// One vector-table slot: a concrete handler, or an explicit absent marker
/// for a reserved slot.
#[derive(Clone, Copy, Debug, PartialEq, Eq, Structural)]
pub enum Slot {
    Present(Handler),
    Absent,
}

/// The mandatory core-exception slots: reset, non-maskable interrupt, hard
/// fault, memory fault, bus fault, usage fault, supervisor call, pending
/// service call, system tick.
pub open spec fn is_mandatory(i: int) -> bool {
    ||| 0 <= i <= 5
    ||| i == 10
    ||| i == 13
    ||| i == 14
}

/// The core handler each mandatory slot must hold.
pub open spec fn mandatory_handler(i: int) -> Handler {
    if i == 0 {
        Handler::Reset
    } else if i == 1 {
        Handler::Nmi
    } else if i == 2 {
        Handler::HardFault
    } else if i == 3 {
        Handler::MemManage
    } else if i == 4 {
        Handler::BusFault
    } else if i == 5 {
        Handler::UsageFault
    } else if i == 10 {
        Handler::SvCall
    } else if i == 13 {
        Handler::PendSv
    } else {
        Handler::SysTick
    }
}

/// Whether slot `i` is mandatory, decided at run time.
pub fn mandatory_slot(i: usize) -> (r: bool)
    ensures
        r == is_mandatory(i as int),
{
    i <= 5 || i == 10 || i == 13 || i == 14
}

/// The core handler of a mandatory slot, decided at run time.
fn core_handler(i: usize) -> (h: Handler)
    requires
        is_mandatory(i as int),
    ensures
        h == mandatory_handler(i as int),
{
    if i == 0 {
        Handler::Reset
    } else if i == 1 {
        Handler::Nmi
    } else if i == 2 {
        Handler::HardFault
    } else if i == 3 {
        Handler::MemManage
    } else if i == 4 {
        Handler::BusFault
    } else if i == 5 {
        Handler::UsageFault
    } else if i == 10 {
        Handler::SvCall
    } else if i == 13 {
        Handler::PendSv
    } else {
        Handler::SysTick
    }
}

/// A target variant: its declared exception+interrupt slot count and, per
/// slot, whether the hardware reserves it.
pub struct Target {
    pub count: usize,
    pub reserved: Vec<bool>,
}

impl Target {
    /// The target declares one reservation flag per slot, has room for every
    /// mandatory core-exception slot, and reserves none of them.
    pub open spec fn wf(self) -> bool {
        &&& self.reserved@.len() == self.count
        &&& self.count >= 15
        &&& forall|i: int| is_mandatory(i) ==> !self.reserved@[i]
    }
}

/// The slot a freshly built table holds at index `i`: the absent marker on a
/// reserved slot, the fixed core handler on a mandatory slot, and the shared
/// fallback everywhere else.
pub open spec fn fresh_slot(t: Target, i: int) -> Slot {
    if t.reserved@[i] {
        Slot::Absent
    } else if is_mandatory(i) {
        Slot::Present(mandatory_handler(i))
    } else {
        Slot::Present(Handler::Fallback)
    }
}

/// The whole freshly built table of a target.
pub open spec fn fresh_table(t: Target) -> Seq<Slot> {
    Seq::new(t.count as nat, |i: int| fresh_slot(t, i))
}

/// A fixed-length vector table for one target variant.
pub struct VectorTable {
    pub slots: Vec<Slot>,
}

impl VectorTable {
    /// Table construction guarantees, kept by every operation: the length is
    /// the target's declared count, slot 0 resolves to the reset entry
    /// point, every reserved slot carries the explicit absent marker, and
    /// every other slot holds a concrete handler.
    pub open spec fn wf(self, t: Target) -> bool {
        &&& self.slots@.len() == t.count
        &&& self.slots@[0] == Slot::Present(Handler::Reset)
        &&& forall|i: int| 0 <= i < t.count && t.reserved@[i] ==> self.slots@[i] == Slot::Absent
        &&& forall|i: int| 0 <= i < t.count && !t.reserved@[i] ==> self.slots@[i] is Present
    }

    /// Build the table of a target: core handlers in the mandatory slots,
    /// the absent marker in the reserved slots, the shared fallback in every
    /// peripheral slot until an application handler is assigned.
    pub fn new(t: &Target) -> (table: VectorTable)
        requires
            t.wf(),
        ensures
            table.wf(*t),
            table.slots@ == fresh_table(*t),
    {
        let mut slots: Vec<Slot> = Vec::new();
        let mut i: usize = 0;
        while i < t.count
            invariant
                t.wf(),
                i <= t.count,
                slots@.len() == i,
                forall|j: int| 0 <= j < i ==> slots@[j] == fresh_slot(*t, j),
            decreases t.count - i,
        {
            let slot = if t.reserved[i] {
                Slot::Absent
            } else if mandatory_slot(i) {
                Slot::Present(core_handler(i))
            } else {
                Slot::Present(Handler::Fallback)
            };
            slots.push(slot);
            i = i + 1;
        }
        proof {
            assert(slots@ =~= fresh_table(*t));
            assert(is_mandatory(0));
            assert(!t.reserved@[0]);
        }
        VectorTable { slots }
    }

    /// Assign a device-specific handler to a peripheral slot. Succeeds
    /// exactly when the index lies in the table and names neither a reserved
    /// nor a mandatory slot; on success only that slot changes, and on
    /// failure the table is untouched.
    pub fn assign(&mut self, t: &Target, index: usize, device: usize) -> (ok: bool)
        requires
            t.wf(),
            old(self).wf(*t),
        ensures
            final(self).wf(*t),
            ok == (index < t.count && !t.reserved@[index as int] && !is_mandatory(index as int)),
            ok ==> final(self).slots@ == old(self).slots@.update(
                index as int,
                Slot::Present(Handler::Device(device)),
            ),
            !ok ==> final(self).slots@ == old(self).slots@,
    {
        if index >= t.count {
            return false;
        }
        if t.reserved[index] {
            return false;
        }
        if mandatory_slot(index) {
            return false;
        }
        self.slots[index] = Slot::Present(Handler::Device(device));
        true
    }

    /// The table's slot count.
    pub fn len(&self) -> (n: usize)
        ensures
            n == self.slots@.len(),
    {
        self.slots.len()
    }

    /// Read one slot.
    pub fn get(&self, index: usize) -> (slot: Slot)
        requires
            index < self.slots@.len(),
        ensures
            slot == self.slots@[index as int],
    {
        self.slots[index]
    }
}

/// Vector table completeness: a well-formed table of a well-formed target
/// has exactly the target's declared slot count, and every mandatory
/// core-exception slot holds a concrete handler, never the absent marker.
pub proof fn lemma_table_complete(table: VectorTable, t: Target)
    requires
        t.wf(),
        table.wf(t),
    ensures
        table.slots@.len() == t.count,
        forall|i: int| is_mandatory(i) ==> table.slots@[i] is Present,
{
}

/// Fallback correctness: in a freshly built table, every slot that no one
/// assigned — neither reserved nor mandatory — resolves to the shared
/// fallback handler; and in any well-formed table, no non-reserved slot is
/// ever absent. Assignment only ever replaces one non-reserved slot with a
/// concrete device handler, so both facts survive every assignment.
pub proof fn lemma_unassigned_resolves_to_fallback(table: VectorTable, t: Target)
    requires
        t.wf(),
        table.wf(t),
    ensures
        forall|i: int|
            0 <= i < t.count && !t.reserved@[i] && !is_mandatory(i) ==> fresh_table(t)[i]
                == Slot::Present(Handler::Fallback),
        forall|i: int| 0 <= i < t.count && !t.reserved@[i] ==> table.slots@[i] is Present,
{
}

} // verus!
