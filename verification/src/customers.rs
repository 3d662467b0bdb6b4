//! The customer endpoints' request bodies.

use vstd::prelude::*;

verus! {

/// The body of a request to add a customer; it has no members yet.
#[derive(Debug, Clone, PartialEq, Eq)]
pub struct CustomerPayload {}

} // verus!
