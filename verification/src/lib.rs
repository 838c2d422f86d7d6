//! A minimal preemptive round-robin thread kernel, modelled and verified.
//!
//! The kernel manages lightweight threads, each owning a stack inside a
//! word-addressed memory. A periodic tick rotates the ready queue; a
//! context-switch service carries the "switch from" / "switch to" stack
//! pointers across the interrupt boundary, and the pended switch routine
//! atomically saves and restores the callee-saved register window.

pub mod frame;
pub mod kernel;
pub mod laws;
pub mod memory;
pub mod service;
pub mod text;
pub mod thread;
