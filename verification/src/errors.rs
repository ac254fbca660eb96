//! The error of the identity services.

use vstd::prelude::*;

verus! {

/// An identity operation failed. The value carries no detail.
#[derive(Debug, Clone, Copy, PartialEq, Eq, Structural)]
pub struct UNiDError {}

} // verus!
