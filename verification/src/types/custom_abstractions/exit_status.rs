use vstd::prelude::*;

verus! {

/// Options as to why the server was ended
#[derive(Debug, PartialEq, Eq, Structural)]
pub enum ExitReason {
    UserEnd,
    FailedStartup,
    Unrecoverable,
}

} // verus!
