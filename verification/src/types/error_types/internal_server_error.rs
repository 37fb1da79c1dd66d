//! The error type that every fallible operation of the server returns.
use crate::utils::https_methods::{method_name, HttpMethods};
use crate::utils::text::str_eq;
use vstd::prelude::*;
use vstd::std_specs::cmp::PartialEqSpec;

verus! {

/// What went wrong, or (for `ServerInfo` and `StateChange`) what happened.
#[derive(Debug)]
pub enum InternalServerError {
    FatalError(String),
    ParseError(String),
    EmptyInputError(String),
    EncodeError(String),
    RedundentDataError(String, String),
    AppenedDataError(String, String),
    RetrieveError(String, String),
    ConstructError(String, String),
    ServerInfo(String),
    HandlerError(String, String, String),
    StateChange(String, String),
}

/// The abstract value of an `InternalServerError`: the variant and the text of its fields.
pub enum ServerErrorView {
    FatalError(Seq<char>),
    ParseError(Seq<char>),
    EmptyInputError(Seq<char>),
    EncodeError(Seq<char>),
    RedundentDataError(Seq<char>, Seq<char>),
    AppenedDataError(Seq<char>, Seq<char>),
    RetrieveError(Seq<char>, Seq<char>),
    ConstructError(Seq<char>, Seq<char>),
    ServerInfo(Seq<char>),
    HandlerError(Seq<char>, Seq<char>, Seq<char>),
    StateChange(Seq<char>, Seq<char>),
}

impl View for InternalServerError {
    type V = ServerErrorView;

    open spec fn view(&self) -> ServerErrorView {
        match self {
            InternalServerError::FatalError(a) => ServerErrorView::FatalError(a@),
            InternalServerError::ParseError(a) => ServerErrorView::ParseError(a@),
            InternalServerError::EmptyInputError(a) => ServerErrorView::EmptyInputError(a@),
            InternalServerError::EncodeError(a) => ServerErrorView::EncodeError(a@),
            InternalServerError::RedundentDataError(a, b) => ServerErrorView::RedundentDataError(a@, b@),
            InternalServerError::AppenedDataError(a, b) => ServerErrorView::AppenedDataError(a@, b@),
            InternalServerError::RetrieveError(a, b) => ServerErrorView::RetrieveError(a@, b@),
            InternalServerError::ConstructError(a, b) => ServerErrorView::ConstructError(a@, b@),
            InternalServerError::ServerInfo(a) => ServerErrorView::ServerInfo(a@),
            InternalServerError::HandlerError(a, b, c) => ServerErrorView::HandlerError(a@, b@, c@),
            InternalServerError::StateChange(a, b) => ServerErrorView::StateChange(a@, b@),
        }
    }
}

/// The name of the variant, as `identify` gives it.
pub open spec fn variant_name(e: ServerErrorView) -> Seq<char> {
    match e {
        ServerErrorView::FatalError(..) => "FatalError"@,
        ServerErrorView::ParseError(..) => "ParseError"@,
        ServerErrorView::EmptyInputError(..) => "EmptyInputError"@,
        ServerErrorView::EncodeError(..) => "EncodeError"@,
        ServerErrorView::RedundentDataError(..) => "RedundentDataError"@,
        ServerErrorView::AppenedDataError(..) => "AppenedDataError"@,
        ServerErrorView::RetrieveError(..) => "RetrieveError"@,
        ServerErrorView::ConstructError(..) => "ConstructError"@,
        ServerErrorView::ServerInfo(..) => "ServerInfo"@,
        ServerErrorView::HandlerError(..) => "HandlerError"@,
        ServerErrorView::StateChange(..) => "StateChange"@,
    }
}

/// The human-readable message of an error: the text that its `Display` shows.
pub open spec fn message(e: ServerErrorView) -> Seq<char> {
    match e {
        ServerErrorView::FatalError(a) => "Server Failure : error `"@ + a + "`"@,
        ServerErrorView::ParseError(a) => "Failed to parse `"@ + a + "`"@,
        ServerErrorView::EmptyInputError(a) => "empty data given to `"@ + a + "`"@,
        ServerErrorView::EncodeError(a) => "Failed to encode `"@ + a + "`"@,
        ServerErrorView::RedundentDataError(a, b) => "`"@ + a + "` is already registered in `"@ + b + "`"@,
        ServerErrorView::AppenedDataError(a, b) => "Failed to append to `"@ + a + "`, reason: "@ + b + ""@,
        ServerErrorView::RetrieveError(a, b) => "Failed to retrieve `"@ + a + "` fail error: `"@ + b + "`"@,
        ServerErrorView::ConstructError(a, b) => "Failed to Construct type `"@ + a + "` fail reason: `"@ + b + "`"@,
        ServerErrorView::ServerInfo(a) => "Server Info "@ + a + ""@,
        ServerErrorView::HandlerError(a, b, c) => "Error when calling handler,  uri: "@ + a + ", method:"@ + b + " Error: "@ + c + ""@,
        ServerErrorView::StateChange(a, b) => "Function `"@ + a + "` changed the state of the type `"@ + b + "`\n"@,
    }
}

impl Clone for InternalServerError {
    /// A copy holding the same variant and texts.
    fn clone(&self) -> (r: Self)
        ensures
            r@ == self@,
    {
        match self {
            InternalServerError::FatalError(a) => InternalServerError::FatalError(a.clone()),
            InternalServerError::ParseError(a) => InternalServerError::ParseError(a.clone()),
            InternalServerError::EmptyInputError(a) => InternalServerError::EmptyInputError(a.clone()),
            InternalServerError::EncodeError(a) => InternalServerError::EncodeError(a.clone()),
            InternalServerError::RedundentDataError(a, b) => InternalServerError::RedundentDataError(a.clone(), b.clone()),
            InternalServerError::AppenedDataError(a, b) => InternalServerError::AppenedDataError(a.clone(), b.clone()),
            InternalServerError::RetrieveError(a, b) => InternalServerError::RetrieveError(a.clone(), b.clone()),
            InternalServerError::ConstructError(a, b) => InternalServerError::ConstructError(a.clone(), b.clone()),
            InternalServerError::ServerInfo(a) => InternalServerError::ServerInfo(a.clone()),
            InternalServerError::HandlerError(a, b, c) => InternalServerError::HandlerError(a.clone(), b.clone(), c.clone()),
            InternalServerError::StateChange(a, b) => InternalServerError::StateChange(a.clone(), b.clone()),
        }
    }
}

impl PartialEq for InternalServerError {
    fn eq(&self, other: &Self) -> (r: bool) {
        match (self, other) {
            (InternalServerError::FatalError(a1), InternalServerError::FatalError(a2)) => str_eq(a1.as_str(), a2.as_str()),
            (InternalServerError::ParseError(a1), InternalServerError::ParseError(a2)) => str_eq(a1.as_str(), a2.as_str()),
            (InternalServerError::EmptyInputError(a1), InternalServerError::EmptyInputError(a2)) => str_eq(a1.as_str(), a2.as_str()),
            (InternalServerError::EncodeError(a1), InternalServerError::EncodeError(a2)) => str_eq(a1.as_str(), a2.as_str()),
            (InternalServerError::RedundentDataError(a1, b1), InternalServerError::RedundentDataError(a2, b2)) => str_eq(a1.as_str(), a2.as_str()) && str_eq(b1.as_str(), b2.as_str()),
            (InternalServerError::AppenedDataError(a1, b1), InternalServerError::AppenedDataError(a2, b2)) => str_eq(a1.as_str(), a2.as_str()) && str_eq(b1.as_str(), b2.as_str()),
            (InternalServerError::RetrieveError(a1, b1), InternalServerError::RetrieveError(a2, b2)) => str_eq(a1.as_str(), a2.as_str()) && str_eq(b1.as_str(), b2.as_str()),
            (InternalServerError::ConstructError(a1, b1), InternalServerError::ConstructError(a2, b2)) => str_eq(a1.as_str(), a2.as_str()) && str_eq(b1.as_str(), b2.as_str()),
            (InternalServerError::ServerInfo(a1), InternalServerError::ServerInfo(a2)) => str_eq(a1.as_str(), a2.as_str()),
            (InternalServerError::HandlerError(a1, b1, c1), InternalServerError::HandlerError(a2, b2, c2)) => str_eq(a1.as_str(), a2.as_str()) && str_eq(b1.as_str(), b2.as_str()) && str_eq(c1.as_str(), c2.as_str()),
            (InternalServerError::StateChange(a1, b1), InternalServerError::StateChange(a2, b2)) => str_eq(a1.as_str(), a2.as_str()) && str_eq(b1.as_str(), b2.as_str()),
            _ => false,
        }
    }
}

impl vstd::std_specs::cmp::PartialEqSpecImpl for InternalServerError {
    open spec fn obeys_eq_spec() -> bool {
        true
    }

    open spec fn eq_spec(&self, other: &InternalServerError) -> bool {
        self@ == other@
    }
}

fn text(s: &str) -> (r: String)
    ensures
        r@ == s@,
{
    String::from_str(s)
}

impl InternalServerError {
    /// returns the name of the enum variant that self is, (used for testing)
    pub fn identify(&self) -> (r: String)
        ensures
            r@ == variant_name(self@),
    {
        match self {
            InternalServerError::FatalError(..) => text("FatalError"),
            InternalServerError::ParseError(..) => text("ParseError"),
            InternalServerError::EmptyInputError(..) => text("EmptyInputError"),
            InternalServerError::EncodeError(..) => text("EncodeError"),
            InternalServerError::RedundentDataError(..) => text("RedundentDataError"),
            InternalServerError::AppenedDataError(..) => text("AppenedDataError"),
            InternalServerError::RetrieveError(..) => text("RetrieveError"),
            InternalServerError::ConstructError(..) => text("ConstructError"),
            InternalServerError::ServerInfo(..) => text("ServerInfo"),
            InternalServerError::HandlerError(..) => text("HandlerError"),
            InternalServerError::StateChange(..) => text("StateChange"),
        }
    }

    /// The message of the error, as its `Display` shows it.
    /// The report of a handler or middleware that failed with `cause` while
    /// answering a request for `uri` with `method`.
    pub fn handler_failure(uri: &str, method: HttpMethods, cause: &InternalServerError) -> (r:
        InternalServerError)
        ensures
            r@ == ServerErrorView::HandlerError(uri@, method_name(method), message(cause@)),
    {
        InternalServerError::HandlerError(String::from_str(uri), method.to_stirng(), cause.to_string())
    }

    pub fn to_string(&self) -> (r: String)
        ensures
            r@ == message(self@),
    {
        match self {
            InternalServerError::FatalError(a) => {
                let mut s = text("Server Failure : error `");
                s.append(a.as_str());
                s.append("`");
                s
            },
            InternalServerError::ParseError(a) => {
                let mut s = text("Failed to parse `");
                s.append(a.as_str());
                s.append("`");
                s
            },
            InternalServerError::EmptyInputError(a) => {
                let mut s = text("empty data given to `");
                s.append(a.as_str());
                s.append("`");
                s
            },
            InternalServerError::EncodeError(a) => {
                let mut s = text("Failed to encode `");
                s.append(a.as_str());
                s.append("`");
                s
            },
            InternalServerError::RedundentDataError(a, b) => {
                let mut s = text("`");
                s.append(a.as_str());
                s.append("` is already registered in `");
                s.append(b.as_str());
                s.append("`");
                s
            },
            InternalServerError::AppenedDataError(a, b) => {
                let mut s = text("Failed to append to `");
                s.append(a.as_str());
                s.append("`, reason: ");
                s.append(b.as_str());
                s.append("");
                s
            },
            InternalServerError::RetrieveError(a, b) => {
                let mut s = text("Failed to retrieve `");
                s.append(a.as_str());
                s.append("` fail error: `");
                s.append(b.as_str());
                s.append("`");
                s
            },
            InternalServerError::ConstructError(a, b) => {
                let mut s = text("Failed to Construct type `");
                s.append(a.as_str());
                s.append("` fail reason: `");
                s.append(b.as_str());
                s.append("`");
                s
            },
            InternalServerError::ServerInfo(a) => {
                let mut s = text("Server Info ");
                s.append(a.as_str());
                s.append("");
                s
            },
            InternalServerError::HandlerError(a, b, c) => {
                let mut s = text("Error when calling handler,  uri: ");
                s.append(a.as_str());
                s.append(", method:");
                s.append(b.as_str());
                s.append(" Error: ");
                s.append(c.as_str());
                s.append("");
                s
            },
            InternalServerError::StateChange(a, b) => {
                let mut s = text("Function `");
                s.append(a.as_str());
                s.append("` changed the state of the type `");
                s.append(b.as_str());
                s.append("`\n");
                s
            },
        }
    }
}

/// `==` on errors is an equivalence: every error equals itself (and so its
/// clone, which has the same view), equality is symmetric and transitive,
/// and errors of different variants, as `identify` names them, are never equal.
pub proof fn lemma_error_equality(a: InternalServerError, b: InternalServerError, c: InternalServerError)
    ensures
        a.eq_spec(&a),
        a.eq_spec(&b) == b.eq_spec(&a),
        a.eq_spec(&b) && b.eq_spec(&c) ==> a.eq_spec(&c),
        variant_name(a@) != variant_name(b@) ==> !a.eq_spec(&b),
{
}

} // verus!
