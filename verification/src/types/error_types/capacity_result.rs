use super::internal_server_error::InternalServerError;
use vstd::prelude::*;

verus! {

/// Outcome of adding an element to a `CapacityArray`.
pub type CapacityResult = Result<(), InternalServerError>;

} // verus!
