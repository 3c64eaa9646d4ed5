//! The graph-construction protocol consumed by differentiable operations:
//! build a node exactly when some input requires tracking, with the tracked
//! inputs as parents, and skip allocation entirely otherwise.

use crate::node::Node;
use crate::node::NodeID;
use crate::node::NodeRef;
use crate::requirement::Requirement;
use std::sync::Arc;
use vstd::prelude::*;

verus! {

/// The identifiers of the tracked inputs, in input order; untracked inputs
/// contribute nothing.
pub open spec fn tracked_parent_ids(inputs: Seq<NodeRef>) -> Seq<NodeID>
    decreases inputs.len(),
{
    if inputs.len() == 0 {
        Seq::empty()
    } else {
        let rest = tracked_parent_ids(inputs.drop_last());
        if inputs.last().requirement.is_tracked() {
            rest.push(inputs.last().id)
        } else {
            rest
        }
    }
}

/// True when every input reports that no tracking is required.
pub open spec fn all_untracked(inputs: Seq<NodeRef>) -> bool {
    forall|i: int| 0 <= i < inputs.len() ==> !(#[trigger] inputs[i]).requirement.is_tracked()
}

/// Graph-construction protocol for one operation producing one output.
///
/// Consults each input's requirement: when none requires tracking, no node
/// is allocated and the output carries no handle — this is the pruning rule
/// that keeps the graph proportional to the differentiable computation.
/// When at least one input requires tracking, allocates a node that records
/// exactly the tracked inputs' identifiers as parents, in input order, with
/// the given ordinal and freshly generated identity, tracked by ancestry.
/// Callers pass only inputs allocated strictly earlier (lower ordinal).
pub fn build_output_node(inputs: &Vec<NodeRef>, order: usize, id: NodeID) -> (r: Option<NodeRef>)
    requires
        forall|i: int| 0 <= i < inputs@.len() ==> (#[trigger] inputs@[i]).order < order,
    ensures
        r is None <==> all_untracked(inputs@),
        r matches Some(node) ==> {
            &&& node.parents@ == tracked_parent_ids(inputs@)
            &&& node.order == order
            &&& node.id == id
            &&& node.requirement == Requirement::GradInBackward
        },
{
    let mut parents: Vec<NodeID> = Vec::new();
    let mut requirement = Requirement::NoGrad;
    let n = inputs.len();
    let mut idx: usize = 0;
    while idx < n
        invariant
            n == inputs@.len(),
            0 <= idx <= n,
            parents@ == tracked_parent_ids(inputs@.take(idx as int)),
            !requirement.is_tracked() <==> all_untracked(inputs@.take(idx as int)),
            requirement is NoGrad || requirement is GradInBackward,
        decreases n - idx,
    {
        let ghost prefix = inputs@.take(idx as int);
        let input = &inputs[idx];
        requirement = requirement.infer(&input.requirement);
        match Node::clone_if_require_grad(input) {
            Some(handle) => parents.push(handle.id),
            None => {},
        }
        proof {
            inputs@.lemma_take_succ_push(idx as int);
            assert(inputs@.take(idx + 1).drop_last() =~= prefix);
            assert forall|i: int|
                0 <= i < idx + 1 implies #[trigger] inputs@.take(idx + 1)[i] == inputs@[i] by {
                vstd::seq_lib::lemma_seq_take_index(inputs@, idx + 1, i);
            }
        }
        idx = idx + 1;
    }
    proof {
        inputs@.lemma_take_len();
    }
    if requirement.is_none() {
        None
    } else {
        Some(Arc::new(Node::new(parents, order, id, requirement)))
    }
}

/// Every tracked-parent identifier is the identity of one of the inputs,
/// and that input is itself tracked.
pub proof fn lemma_tracked_parent_ids_from_inputs(inputs: Seq<NodeRef>)
    ensures
        forall|p: int|
            0 <= p < tracked_parent_ids(inputs).len() ==> exists|i: int|
                0 <= i < inputs.len() && (#[trigger] inputs[i]).requirement.is_tracked()
                    && inputs[i].id == #[trigger] tracked_parent_ids(inputs)[p],
    decreases inputs.len(),
{
    if inputs.len() > 0 {
        let rest = inputs.drop_last();
        lemma_tracked_parent_ids_from_inputs(rest);
        assert forall|p: int|
            0 <= p < tracked_parent_ids(inputs).len() implies exists|i: int|
            0 <= i < inputs.len() && (#[trigger] inputs[i]).requirement.is_tracked()
                && inputs[i].id == #[trigger] tracked_parent_ids(inputs)[p] by {
            if p < tracked_parent_ids(rest).len() {
                let w = choose|i: int|
                    0 <= i < rest.len() && (#[trigger] rest[i]).requirement.is_tracked()
                        && rest[i].id == tracked_parent_ids(rest)[p];
                assert(inputs[w] == rest[w]);
                assert(inputs[w].requirement.is_tracked() && inputs[w].id == tracked_parent_ids(
                    inputs,
                )[p]);
            } else {
                let last: int = inputs.len() - 1;
                assert(inputs[last].requirement.is_tracked() && inputs[last].id
                    == tracked_parent_ids(inputs)[p]);
            }
        }
    }
}

/// Ordering invariant: when a node is built from inputs that were all
/// allocated strictly earlier than its ordinal, every one of its parent
/// identifiers belongs to a node — one of the inputs — whose ordinal is
/// strictly less than the child's.
pub proof fn lemma_parents_precede_child(inputs: Seq<NodeRef>, order: usize)
    requires
        forall|i: int| 0 <= i < inputs.len() ==> (#[trigger] inputs[i]).order < order,
    ensures
        forall|p: int|
            0 <= p < tracked_parent_ids(inputs).len() ==> exists|i: int|
                0 <= i < inputs.len() && (#[trigger] inputs[i]).id == #[trigger] tracked_parent_ids(
                    inputs,
                )[p] && inputs[i].order < order,
{
    lemma_tracked_parent_ids_from_inputs(inputs);
    assert forall|p: int|
        0 <= p < tracked_parent_ids(inputs).len() implies exists|i: int|
        0 <= i < inputs.len() && (#[trigger] inputs[i]).id == #[trigger] tracked_parent_ids(
            inputs,
        )[p] && inputs[i].order < order by {
        let w = choose|i: int|
            0 <= i < inputs.len() && (#[trigger] inputs[i]).requirement.is_tracked()
                && inputs[i].id == tracked_parent_ids(inputs)[p];
        assert(inputs[w].id == tracked_parent_ids(inputs)[p] && inputs[w].order < order);
    }
}

} // verus!
