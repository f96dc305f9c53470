//! Scoped event observation for a multi-stage virtual-machine interpreter.
//!
//! The crate provides one generic mechanism — a binding slot for an event
//! listener, a scope guard that installs and restores listeners with stack
//! discipline, a broadcast operation, and a write-once activation cache —
//! instantiated by three event taxonomies, one per interpreter layer
//! (gas accounting, bytecode execution, call lifecycle).

pub mod evm_types;
pub mod gasometer;
pub mod lifecycle;
pub mod runtime;
pub mod tracing;
