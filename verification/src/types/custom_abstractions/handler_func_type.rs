use crate::types::error_types::internal_server_result::InternalServerResult;
use crate::utils::https_methods::{interpreted_method, invalid_method_error, HttpMethods};
use vstd::prelude::*;

verus! {

/// internal type to reprsent the http handler
/// type that is stored in the handler registry cap array;
/// `H` is the handler function that the server calls
#[derive(Debug, Clone, Copy)]
pub struct HandlerFuncType<H> {
    pub method: HttpMethods,
    pub handler: H,
}

impl<H> HandlerFuncType<H> {
    pub fn new(method: &str, handler: H) -> (r: InternalServerResult<Self>)
        ensures
            match interpreted_method(method@) {
                Some(m) => r matches Ok(f) && f.method == m && f.handler == handler,
                None => r matches Err(e) && e@ == invalid_method_error(),
            },
    {
        match HttpMethods::interpret(method) {
            Ok(m) => Ok(Self { method: m, handler }),
            Err(e) => Err(e),
        }
    }
}

/// Two entries are equal when they serve the same method.
impl<H> PartialEq for HandlerFuncType<H> {
    fn eq(&self, other: &Self) -> (r: bool) {
        self.method == other.method
    }
}

impl<H> vstd::std_specs::cmp::PartialEqSpecImpl for HandlerFuncType<H> {
    open spec fn obeys_eq_spec() -> bool {
        true
    }

    open spec fn eq_spec(&self, other: &HandlerFuncType<H>) -> bool {
        self.method == other.method
    }
}

} // verus!
