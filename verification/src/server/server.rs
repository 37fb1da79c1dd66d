use crate::server::configurable::{default_config, Configurable};
use crate::types::error_types::internal_server_error::InternalServerError;
use vstd::prelude::*;

verus! {

/// Return type for all Handler Functions
pub type HandlerResult = Result<(), InternalServerError>;

/// the base type that will return the first state of the server
pub struct FrameWork {}

impl FrameWork {
    /// returns a configurable type to be given to the server
    pub fn new_config<H>() -> (r: Configurable<H>)
        ensures
            r@ == default_config::<H>(),
    {
        Configurable::new()
    }
}

} // verus!
