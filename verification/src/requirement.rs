//! Classification of whether, and why, a node participates in gradient
//! propagation.

use vstd::prelude::*;

verus! {

/// Whether a node takes part in gradient tracking.
///
/// `Grad` marks a user-declared leaf that requires gradients: the backward
/// walk stores accumulated results there. `GradInBackward` marks a node that
/// requires gradients only because some ancestor does: the backward walk
/// passes gradients through it. `NoGrad` marks a node whose output needs no
/// gradient at all; downstream consumers must not retain a handle to it.
#[derive(Clone, Copy, Debug, Hash, PartialEq, Eq, Structural)]
pub enum Requirement {
    Grad,
    GradInBackward,
    NoGrad,
}

impl Requirement {
    /// True when gradient tracking is needed for this node.
    pub open spec fn is_tracked(self) -> bool {
        self !is NoGrad
    }

    /// Answers the one query every operation asks before paying for node
    /// allocation: does this node need no tracking at all?
    pub fn is_none(&self) -> (r: bool)
        ensures
            r == !self.is_tracked(),
    {
        matches!(self, Requirement::NoGrad)
    }

    /// Propagation rule: an operation's output requires tracking if and only
    /// if at least one input requires tracking, and then only by ancestry,
    /// never as a fresh leaf.
    pub fn infer(&self, other: &Requirement) -> (r: Requirement)
        ensures
            r == (if self.is_tracked() || other.is_tracked() {
                Requirement::GradInBackward
            } else {
                Requirement::NoGrad
            }),
    {
        if self.is_none() && other.is_none() {
            Requirement::NoGrad
        } else {
            Requirement::GradInBackward
        }
    }
}

} // verus!
