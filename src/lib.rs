//! The verified core of a bridge between a native formatting and linting engine
//! and the host process that embeds it: option normalisation, file
//! classification, settling of host calls, the one-shot initialisation of the
//! host delegate, decoding of batched config loads, and command routing.

use vstd::prelude::*;

pub mod api;
pub mod bridge;
pub mod delegate;
pub mod diagnostic;
pub mod laws;
pub mod options;
pub mod response;
pub mod router;
pub mod strategy;

verus! {

} // verus!
