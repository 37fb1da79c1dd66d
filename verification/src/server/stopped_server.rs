use crate::types::custom_abstractions::exit_status::ExitReason;
use crate::types::error_types::internal_server_error::{InternalServerError, ServerErrorView};
use vstd::prelude::*;

verus! {

/// the final state of the server, will hold some info about the server that just ran
/// can be returned from `UnstartedServer` or `StartedServer`
#[derive(Debug)]
pub struct StoppedServer {
    pub exit_status: ExitReason,
    pub final_error: InternalServerError,
}

impl StoppedServer {
    pub fn new(exit_status: ExitReason, final_error: InternalServerError) -> (r: Self)
        ensures
            r.exit_status == exit_status,
            r.final_error == final_error,
    {
        Self { exit_status, final_error }
    }

    /// The final state after asking the server to stop; `delivered` tells
    /// whether the stop request reached the server loop.
    pub fn after_kill(delivered: bool) -> (r: Self)
        ensures
            delivered ==> r.exit_status == ExitReason::UserEnd && r.final_error@
                == ServerErrorView::ServerInfo("Server ended successfully by the user"@),
            !delivered ==> r.exit_status == ExitReason::Unrecoverable && r.final_error@
                == ServerErrorView::FatalError("failed to kill the server cleanly"@),
    {
        if delivered {
            StoppedServer::new(
                ExitReason::UserEnd,
                InternalServerError::ServerInfo(String::from_str("Server ended successfully by the user")),
            )
        } else {
            StoppedServer::new(
                ExitReason::Unrecoverable,
                InternalServerError::FatalError(String::from_str("failed to kill the server cleanly")),
            )
        }
    }
}

} // verus!
