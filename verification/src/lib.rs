//! Core substrate of a reverse-mode automatic-differentiation engine:
//! unique node identities, gradient-tracking classification, immutable
//! graph nodes behind shared handles, and the pruning rule that builds a
//! dependency graph no larger than the differentiable computation.

pub mod generator;
pub mod graph;
pub mod node;
pub mod requirement;

pub use generator::IdGenerator;
pub use graph::build_output_node;
pub use node::Node;
pub use node::NodeID;
pub use node::NodeRef;
pub use requirement::Requirement;
