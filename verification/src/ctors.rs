//! The constructor runner: consumes a half-open range of an ordered
//! constructor table exactly once, in declared order, before the application
//! entry point. Constructors are identified here by plain identifiers; the
//! unverified runtime shell maps each identifier to the routine it stands
//! for and invokes it, so the order decided here is the order observed.

use vstd::prelude::*;

verus! {

/// Walk the constructor table over `[start, end)` and return, in order, the
/// identifiers of the constructors to invoke. An empty range is valid and
/// yields no invocations.
pub fn run_constructors(table: &Vec<u64>, start: usize, end: usize) -> (order: Vec<u64>)
    requires
        start <= end <= table.len(),
    ensures
        order@ == table@.subrange(start as int, end as int),
{
    let mut order: Vec<u64> = Vec::new();
    let mut i: usize = start;
    while i < end
        invariant
            start <= i <= end <= table.len(),
            order@ == table@.subrange(start as int, i as int),
        decreases end - i,
    {
        order.push(table[i]);
        proof {
            assert(order@ =~= table@.subrange(start as int, i + 1));
        }
        i = i + 1;
    }
    order
}

/// Every empty constructor range plans zero invocations: the runner's
/// declared order over `[start, start)` is the empty sequence.
pub proof fn lemma_empty_constructor_range(table: Seq<u64>, start: int)
    requires
        0 <= start <= table.len(),
    ensures
        table.subrange(start, start).len() == 0,
{
}

/// Invocation order is exactly declaration order: over the full table, the
/// runner's declared order is the table itself.
pub proof fn lemma_constructor_order(table: Seq<u64>)
    ensures
        table.subrange(0, table.len() as int) == table,
{
    assert(table.subrange(0, table.len() as int) =~= table);
}

} // verus!
