//! Identity generation: a monotonically increasing counter that issues each
//! identifier exactly once.

use crate::node::NodeID;
use vstd::prelude::*;

verus! {

/// Source of unique, monotonically increasing [identifiers](NodeID).
///
/// The raw counter is never exposed; only the generation operation is. The
/// counter starts at zero and advances by exactly one per identifier issued,
/// so an identifier equals the number of identifiers issued before it and no
/// value is ever handed out twice. Exhaustion of the 64-bit identifier space
/// is fatal and excluded by precondition rather than recovered from.
pub struct IdGenerator {
    counter: u64,
}

impl IdGenerator {
    /// The value the next identifier will take, equal to the number of
    /// identifiers issued so far.
    pub closed spec fn issued(self) -> u64 {
        self.counter
    }

    /// A fresh generator that has issued nothing.
    pub fn new() -> (r: IdGenerator)
        ensures
            r.issued() == 0,
    {
        IdGenerator { counter: 0 }
    }

    /// Issues the next identifier: strictly greater than every identifier
    /// this generator has returned before, with no value skipped.
    pub fn generate(&mut self) -> (r: NodeID)
        requires
            old(self).issued() < u64::MAX,
        ensures
            r.value == old(self).issued(),
            final(self).issued() == old(self).issued() + 1,
    {
        let value = self.counter;
        self.counter = self.counter + 1;
        NodeID { value }
    }
}

impl NodeID {
    /// Create a unique [node id](NodeID) from the given generator.
    pub fn new(generator: &mut IdGenerator) -> (r: NodeID)
        requires
            old(generator).issued() < u64::MAX,
        ensures
            r.value == old(generator).issued(),
            final(generator).issued() == old(generator).issued() + 1,
    {
        generator.generate()
    }
}

/// Uniqueness and monotonic non-reuse of issued identifiers.
///
/// A run of the generator that starts with `start` identifiers already issued
/// returns, on its `i`-th call, the identifier `start + i` (this is exactly
/// what [`IdGenerator::generate`] ensures call after call). Over any such
/// run, the identifiers are strictly increasing — so none repeats a value
/// returned earlier in the process, whatever nodes were destroyed in
/// between — and the set of returned identifiers has no duplicates and size
/// equal to the call count.
pub proof fn lemma_issued_ids_unique(ids: Seq<NodeID>, start: u64)
    requires
        start + ids.len() <= u64::MAX,
        forall|i: int| 0 <= i < ids.len() ==> #[trigger] ids[i].value == start + i,
    ensures
        forall|i: int, j: int|
            0 <= i < j < ids.len() ==> #[trigger] ids[i].value < #[trigger] ids[j].value,
        ids.no_duplicates(),
        ids.to_set().len() == ids.len(),
{
    assert forall|i: int, j: int| 0 <= i < j < ids.len() implies #[trigger] ids[i].value
        < #[trigger] ids[j].value by {
        assert(ids[i].value == start + i);
        assert(ids[j].value == start + j);
    }
    assert forall|i: int, j: int|
        (0 <= i < ids.len() && 0 <= j < ids.len() && i != j) implies ids[i] != ids[j] by {
        assert(ids[i].value == start + i);
        assert(ids[j].value == start + j);
    }
    ids.unique_seq_to_set();
}

} // verus!
