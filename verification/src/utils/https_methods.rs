use crate::types::error_types::internal_server_error::{InternalServerError, ServerErrorView};
use crate::types::error_types::internal_server_result::InternalServerResult;
use crate::utils::text::{ascii_uppercase, str_eq, to_uppercase, unicode_uppercase};
use vstd::prelude::*;

verus! {

#[derive(Debug, PartialEq, Eq, Structural, Clone, Copy)]
pub enum HttpMethods {
    GET,
    POST,
    DELETE,
    PUT,
    NEXT,
}

/// The name of a method, as `to_stirng` writes it.
pub open spec fn method_name(m: HttpMethods) -> Seq<char> {
    match m {
        HttpMethods::GET => "GET"@,
        HttpMethods::PUT => "PUT"@,
        HttpMethods::POST => "POST"@,
        HttpMethods::DELETE => "DELETE"@,
        HttpMethods::NEXT => "NEXT"@,
    }
}

/// The method whose upper-case name is exactly `name`, if there is one.
pub open spec fn method_named(name: Seq<char>) -> Option<HttpMethods> {
    if name == "GET"@ {
        Some(HttpMethods::GET)
    } else if name == "PUT"@ {
        Some(HttpMethods::PUT)
    } else if name == "POST"@ {
        Some(HttpMethods::POST)
    } else if name == "DELETE"@ {
        Some(HttpMethods::DELETE)
    } else if name == "NEXT"@ {
        Some(HttpMethods::NEXT)
    } else {
        None
    }
}

/// The error that an unknown method name gives.
pub open spec fn invalid_method_error() -> ServerErrorView {
    ServerErrorView::ConstructError("HttpMethod"@, "invalid http method was given"@)
}

/// The method that `interpret` reads from `s`: the one named by `s` in upper case.
/// ASCII text is upper-cased letter by letter; other text as `str::to_uppercase` does it.
pub open spec fn interpreted_method(s: Seq<char>) -> Option<HttpMethods> {
    if vstd::utf8::is_ascii_chars(s) {
        method_named(ascii_uppercase(s))
    } else {
        method_named(unicode_uppercase(s))
    }
}

impl HttpMethods {
    /// returns the correct enum value for the given &str given
    /// (compared without regard to case)
    pub fn interpret(method: &str) -> (r: InternalServerResult<HttpMethods>)
        ensures
            match interpreted_method(method@) {
                Some(m) => r matches Ok(x) && x == m,
                None => r matches Err(e) && e@ == invalid_method_error(),
            },
    {
        let upper = to_uppercase(method);
        Self::from_uppercase(upper.as_str())
    }

    /// The method whose name is exactly `upper`; the second half of `interpret`,
    /// once the name has been upper-cased.
    pub fn from_uppercase(upper: &str) -> (r: InternalServerResult<HttpMethods>)
        ensures
            match method_named(upper@) {
                Some(m) => r matches Ok(x) && x == m,
                None => r matches Err(e) && e@ == invalid_method_error(),
            },
    {
        if str_eq(upper, "GET") {
            Ok(HttpMethods::GET)
        } else if str_eq(upper, "PUT") {
            Ok(HttpMethods::PUT)
        } else if str_eq(upper, "POST") {
            Ok(HttpMethods::POST)
        } else if str_eq(upper, "DELETE") {
            Ok(HttpMethods::DELETE)
        } else if str_eq(upper, "NEXT") {
            Ok(HttpMethods::NEXT)
        } else {
            Err(InternalServerError::ConstructError(
                String::from_str("HttpMethod"),
                String::from_str("invalid http method was given"),
            ))
        }
    }

    /// returns the string version of the given enum value
    pub fn to_stirng(self) -> (r: String)
        ensures
            r@ == method_name(self),
    {
        match self {
            HttpMethods::GET => String::from_str("GET"),
            HttpMethods::PUT => String::from_str("PUT"),
            HttpMethods::POST => String::from_str("POST"),
            HttpMethods::DELETE => String::from_str("DELETE"),
            HttpMethods::NEXT => String::from_str("NEXT"),
        }
    }
}

/// Reading back the name that `to_stirng` writes gives the same method,
/// whether or not the name is upper-cased first: `interpret(m.to_stirng())` is `Ok(m)`.
pub proof fn lemma_method_name_round_trip(m: HttpMethods)
    ensures
        vstd::utf8::is_ascii_chars(method_name(m)),
        ascii_uppercase(method_name(m)) == method_name(m),
        method_named(method_name(m)) == Some(m),
        interpreted_method(method_name(m)) == Some(m),
{
    reveal_strlit("GET");
    reveal_strlit("PUT");
    reveal_strlit("POST");
    reveal_strlit("DELETE");
    reveal_strlit("NEXT");
    assert(ascii_uppercase(method_name(m)) =~= method_name(m));
    assert("PUT"@[0] != "GET"@[0]);
    assert("POST"@.len() != "GET"@.len() && "POST"@.len() != "PUT"@.len());
    assert("DELETE"@.len() != "GET"@.len() && "DELETE"@.len() != "PUT"@.len()
        && "DELETE"@.len() != "POST"@.len());
    assert("NEXT"@.len() != "GET"@.len() && "NEXT"@.len() != "PUT"@.len()
        && "NEXT"@.len() != "DELETE"@.len() && "NEXT"@[0] != "POST"@[0]);
}

} // verus!
