//! Synchronization and interrupt-coordination core of a small kernel.
//!
//! Every primitive here is a state machine over plain values: a core is
//! represented by its own interrupt-state record, spinning is a sequence of
//! single poll steps, and each transition carries a contract that Verus proves.

pub mod allocator;
pub mod cli;
pub mod core_locals;
pub mod framebuffer;
pub mod interrupts;
pub mod sync;
pub mod text;
pub mod types;
