//! Staged device bring-up and runtime session logic for an embedded
//! network service, written as explicit state machines.
//!
//! Hardware operations complete through out-of-band callbacks, so every
//! decision in this crate is a pure transition: the host issues the
//! device calls that the transitions describe and feeds the completion
//! results back in.
use vstd::prelude::*;

pub mod bridge;
pub mod bringup;
pub mod calls;
pub mod device;
pub mod session;
pub mod system;
pub mod text;
pub mod util;

verus! {

} // verus!
