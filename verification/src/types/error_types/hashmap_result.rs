use super::internal_server_error::InternalServerError;
use vstd::prelude::*;

verus! {

/// Outcome of changing a `HandlerMap`.
pub type HashMapResult = Result<(), InternalServerError>;

} // verus!
