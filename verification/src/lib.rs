//! Verified core of a microcontroller boot sequence and runtime integrity
//! monitor: the reset-time memory initialization steps, a stack-guard zone
//! written and checked against a sentinel pattern, the interrupt vector
//! table, and the pre-entry constructor runner.
//!
//! Memory is modeled as a word-indexed vector; address boundaries from the
//! external linker layout become explicit region descriptors. The raw
//! memory-mapped execution environment around this logic lives outside the
//! library.

pub mod boot;
pub mod button;
pub mod ctors;
pub mod guard;
pub mod layout;
pub mod memory;
pub mod stress;
pub mod targets;
pub mod vectors;

use vstd::prelude::*;

verus! {

/// Sentinel written across the stack-guard zone at boot; chosen so that an
/// accidental collision with real stack data is astronomically unlikely.
pub const STACK_GUARD_PATTERN: u32 = 0xCAFECAFE;

} // verus!
