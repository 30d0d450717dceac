//! Interface bridging for a reflection-driven node tree: delegating adapters,
//! a loud placeholder for host-default construction, borrow-mode-aware
//! forwarding to node state, and breadth-first capability discovery.
#![verifier::loop_isolation(false)]

pub mod adapter;
pub mod decl;
pub mod discovery;
pub mod names;
pub mod tree;
