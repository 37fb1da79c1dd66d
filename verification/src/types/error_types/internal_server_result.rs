use super::internal_server_error::InternalServerError;
use vstd::prelude::*;

verus! {

pub type InternalServerResult<T> = Result<T, InternalServerError>;

} // verus!
