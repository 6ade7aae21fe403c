//! Ownership and lifecycle discipline for an embedded script engine: the
//! engine handle, the context that depends on it, script evaluation,
//! diagnostics, and compartment switching.
#![allow(non_camel_case_types)]

use vstd::prelude::*;

pub mod compartment;
pub mod evaluate;
pub mod ownership;
pub mod report;
pub mod runtime;

verus! {

/// Status value with which the engine reports that an evaluation failed.
pub const ERR: i32 = 0;

} // verus!
