//! Graph nodes, their identifiers, and the shared read-only handle through
//! which every downstream consumer references a node.

use crate::requirement::Requirement;
use std::sync::Arc;
use vstd::prelude::*;

verus! {

/// Unique identifier generated for each [node](Node).
///
/// Wraps a 64-bit counter value; two identifiers are equal exactly when they
/// denote the same node, and a value is never reused for the lifetime of the
/// process.
#[derive(Clone, Copy, Debug, Hash, PartialEq, Eq, PartialOrd, Ord, Structural)]
pub struct NodeID {
    pub value: u64,
}

/// A node contains graph metadata and should be used wrapped in an `Arc` for
/// cheap cloning.
///
/// Nodes are immutable once constructed; a node with an empty parent list is
/// a leaf.
#[derive(Debug)]
pub struct Node {
    pub parents: Vec<NodeID>,
    pub order: usize,
    pub id: NodeID,
    pub requirement: Requirement,
}

/// Shared read-only handle to a [node](Node): multi-owner, reference
/// counted, freed by the last holder.
pub type NodeRef = Arc<Node>;

/// Relies on `Arc::clone`: the result is a handle to the same node as the
/// argument.
#[verifier::external_body]
fn clone_handle(node: &NodeRef) -> (r: NodeRef)
    ensures
        r == *node,
{
    Arc::clone(node)
}

impl Node {
    /// Pure constructor: records the given parents, ordinal, identity and
    /// requirement without validation. Callers are responsible for passing
    /// identifiers of already-constructed, strictly earlier nodes.
    pub fn new(parents: Vec<NodeID>, order: usize, id: NodeID, requirement: Requirement) -> (r:
        Node)
        ensures
            r.parents == parents,
            r.order == order,
            r.id == id,
            r.requirement == requirement,
    {
        Node { parents, order, id, requirement }
    }

    /// Returns an additional handle to the same node only if gradients are
    /// required; an untracked node yields nothing, so callers never retain a
    /// reference to it.
    pub fn clone_if_require_grad(node: &NodeRef) -> (r: Option<NodeRef>)
        ensures
            r == (if node.requirement.is_tracked() {
                Some(*node)
            } else {
                None::<NodeRef>
            }),
    {
        match node.requirement.is_none() {
            true => None,
            false => Some(clone_handle(node)),
        }
    }
}

} // verus!
