use super::headers::{lemma_header_read_after_write, names_distinct, value_of, with_header, Headers};
use crate::types::custom_abstractions::file_type::{content_type_of, is_text_kind, FileType};
use crate::types::custom_abstractions::valid_responses::{ResponseBodyView, ValidResponse};
use crate::types::error_types::internal_server_error::{InternalServerError, ServerErrorView};
use crate::types::error_types::internal_server_result::InternalServerResult;
use crate::utils::constants;
use crate::utils::http_status_codes::{status_reason, HttpStatusCodes};
use crate::utils::text::{decimal, decimal_string, ends_with_char, starts_with_char, string_from_utf8};
use vstd::prelude::*;
use vstd::utf8::{decode_utf8, encode_utf8, valid_utf8};

verus! {

/// The abstract value of a response: the text of its status line parts,
/// its header fields in order, and its body.
pub struct ResponseView {
    pub status_code: Seq<char>,
    pub version: Seq<char>,
    pub body: ResponseBodyView<Seq<u8>>,
    pub headers: Seq<(Seq<char>, Seq<char>)>,
}

/// The `Content-Length` value of a text: its length in UTF-8 bytes, in decimal.
pub open spec fn content_length(text: Seq<char>) -> Seq<char> {
    decimal(encode_utf8(text).len())
}

/// `v` with `text` as its body, sent as `content_type`.
pub open spec fn with_text_body(v: ResponseView, content_type: Seq<char>, text: Seq<char>) -> ResponseView {
    ResponseView {
        headers: with_header(
            with_header(v.headers, "Content-Type"@, content_type),
            "Content-Length"@,
            content_length(text),
        ),
        body: ResponseBodyView::String(text),
        ..v
    }
}

/// The status text the server sends for `code` with reason phrase `reason`.
pub open spec fn status_text(code: usize, reason: Seq<char>) -> Seq<char> {
    " "@ + decimal(code as nat) + " "@ + reason
}

/// The header lines of a response, each `name:value` and a line break.
pub open spec fn header_lines(h: Seq<(Seq<char>, Seq<char>)>) -> Seq<char>
    decreases h.len(),
{
    if h.len() == 0 {
        Seq::empty()
    } else {
        header_lines(h.drop_last()) + h.last().0 + ":"@ + h.last().1 + constants::CARRIAGE_RETURN@
    }
}

/// The status line and header lines of a response, up to the blank line.
pub open spec fn response_head(v: ResponseView) -> Seq<char> {
    v.version + v.status_code + constants::CARRIAGE_RETURN@ + header_lines(v.headers)
        + constants::CARRIAGE_RETURN@
}

/// The bytes sent to the client for a response.
pub open spec fn response_bytes(v: ResponseView) -> Seq<u8> {
    match v.body {
        ResponseBodyView::String(s) => encode_utf8(
            response_head(v) + s + constants::DOUBLE_CARRIAGE_RETURN@,
        ),
        ResponseBodyView::Vec(b) => encode_utf8(response_head(v)) + b + encode_utf8(
            constants::DOUBLE_CARRIAGE_RETURN@,
        ),
    }
}

pub open spec fn empty_body_error() -> ServerErrorView {
    ServerErrorView::EmptyInputError("cannot pass a empty sting as the body"@)
}

pub open spec fn invalid_json_error() -> ServerErrorView {
    ServerErrorView::ParseError("invalid json was given"@)
}

pub open spec fn empty_header_error() -> ServerErrorView {
    ServerErrorView::EmptyInputError("can not add empty strings to headers"@)
}

pub open spec fn unsupported_status_error(status: usize) -> ServerErrorView {
    ServerErrorView::ParseError(decimal(status as nat) + ": status code is not supported"@)
}

pub open spec fn missing_content_type_error() -> ServerErrorView {
    ServerErrorView::ConstructError(
        "Response Body"@,
        "cannot use `set_raw_body` without setting the content type for the reposne\neither set content type with `add_header` method or use one of the `to_body` methods"@,
    )
}

pub open spec fn unreadable_file_error() -> ServerErrorView {
    ServerErrorView::ParseError("error when reading file contents"@)
}

pub open spec fn empty_path_error() -> ServerErrorView {
    ServerErrorView::ConstructError("static dir"@, "couldn't find the provied directory"@)
}


/// response struct that will be sent to the client
/// formatted to function as a builder type for easy construction
#[derive(Debug)]
pub struct HttpResponse {
    pub status_code: String,
    pub version: String,
    /// needs to be empty string if no body
    pub body: ValidResponse<Vec<u8>>,
    pub headers: Headers,
}

impl View for HttpResponse {
    type V = ResponseView;

    open spec fn view(&self) -> ResponseView {
        ResponseView {
            status_code: self.status_code@,
            version: self.version@,
            body: self.body@,
            headers: self.headers@,
        }
    }
}

impl HttpResponse {
    pub fn new() -> (r: Self)
        ensures
            names_distinct(r@.headers),
            r@ == (ResponseView {
                status_code: " 404 NOT FOUND"@,
                version: "HTTP/1.1"@,
                body: ResponseBodyView::String(Seq::empty()),
                headers: Seq::empty(),
            }),
    {
        Self {
            status_code: String::from_str(" 404 NOT FOUND"),
            version: String::from_str("HTTP/1.1"),
            body: ValidResponse::String(String::new()),
            headers: Headers::new(),
        }
    }

    /// Puts `text` in the body and sets the matching content headers.
    fn put_text(&mut self, content_type: &str, text: String)
        ensures
            names_distinct(final(self)@.headers),
            final(self)@ == with_text_body(old(self)@, content_type@, text@),
    {
        proof {
            use_type_invariant(&self.headers);
        }
        self.headers.insert(String::from_str("Content-Type"), String::from_str(content_type));
        let len = decimal_string(text.as_str().as_bytes().len());
        self.headers.insert(String::from_str("Content-Length"), len);
        self.body = ValidResponse::String(text);
    }

    /// The first step of `file_to_body`: the path of the file must not be empty.
    pub fn check_body_path(path: &str) -> (r: InternalServerResult<()>)
        ensures
            path@.len() == 0 ==> (r matches Err(e) && e@ == empty_path_error()),
            path@.len() != 0 ==> r is Ok,
    {
        if path.is_empty() {
            return Err(InternalServerError::ConstructError(
                String::from_str("static dir"),
                String::from_str("couldn't find the provied directory"),
            ));
        }
        Ok(())
    }

    /// The rest of `file_to_body`, given what reading the file gave:
    /// a non-empty file becomes the body, sent as html text.
    pub fn contents_to_body(&mut self, contents: Option<String>) -> (r: InternalServerResult<&mut Self>)
        ensures
            match contents {
                None => (r matches Err(e) && e@ == unreadable_file_error()) && final(self)@ == old(self)@,
                Some(c) => r matches Ok(s) && *final(self) == *final(s) && s@ == (if c@.len() == 0 {
                    old(self)@
                } else {
                    with_text_body(old(self)@, "text/html; charset=utf-8"@, c@)
                }),
            },
    {
        let contents = match contents {
            Some(s) => s,
            None => {
                return Err(InternalServerError::ParseError(
                    String::from_str("error when reading file contents"),
                ));
            },
        };
        if contents.as_str().is_empty() {
        } else {
            self.put_text("text/html; charset=utf-8", contents);
        }
        Ok(self)
    }

    /// sets body to a given json string passed, needs to be in json format
    pub fn json_to_body(&mut self, b: String) -> (r: InternalServerResult<&mut Self>)
        ensures
            (b@.len() == 0 || b@[0] != '{' || b@[b@.len() - 1] != '}') ==> (r matches Err(e)
                && e@ == invalid_json_error()) && final(self)@ == old(self)@,
            !(b@.len() == 0 || b@[0] != '{' || b@[b@.len() - 1] != '}') ==> (r matches Ok(s)
                && *final(self) == *final(s) && s@ == with_text_body(old(self)@, "application/json"@, b@)),
    {
        if b.as_str().is_empty() || !starts_with_char(b.as_str(), '{') || !ends_with_char(b.as_str(), '}') {
            return Err(InternalServerError::ParseError(String::from_str("invalid json was given")));
        } else {
            self.put_text("application/json", b);
            Ok(self)
        }
    }

    /// sets body to a given string and will be sent as plain text
    pub fn text_to_body(&mut self, b: String) -> (r: InternalServerResult<&mut Self>)
        ensures
            b@.len() == 0 ==> (r matches Err(e) && e@ == empty_body_error()) && final(self)@ == old(self)@,
            b@.len() != 0 ==> (r matches Ok(s) && *final(self) == *final(s) && s@ == with_text_body(
                old(self)@,
                "text/html; charset=utf-8"@,
                b@,
            )),
    {
        if b.as_str().is_empty() {
            return Err(InternalServerError::EmptyInputError(
                String::from_str("cannot pass a empty sting as the body"),
            ));
        } else {
            self.put_text("text/html; charset=utf-8", b);
            Ok(self)
        }
    }

    /// sets the body to the given bytes, will not handle the content type header;
    /// text kinds of file are kept as text
    pub fn set_body_raw(&mut self, b: Vec<u8>, kind: FileType) -> (r: InternalServerResult<&mut Self>)
        requires
            value_of(old(self)@.headers, "Content-Type"@) is Some && is_text_kind(kind) ==> valid_utf8(b@),
        ensures
            value_of(old(self)@.headers, "Content-Type"@) is None ==> (r matches Err(e) && e@
                == missing_content_type_error()) && final(self)@ == old(self)@,
            value_of(old(self)@.headers, "Content-Type"@) is Some ==> (r matches Ok(s) && *final(self)
                == *final(s) && s@ == (ResponseView {
                headers: with_header(old(self)@.headers, "Content-Length"@, decimal(b@.len())),
                body: if is_text_kind(kind) {
                    ResponseBodyView::String(decode_utf8(b@))
                } else {
                    ResponseBodyView::Vec(b@)
                },
                ..old(self)@
            })),
    {
        if self.headers.contains_key("Content-Type") {
            proof {
                reveal_strlit("Content-Length");
            }
            let _ = self.add_header(String::from_str("Content-Length"), decimal_string(b.len()));
            if kind.is_text() {
                self.body = ValidResponse::String(string_from_utf8(b).unwrap());
            } else {
                self.body = ValidResponse::Vec(b);
            }
        } else {
            return Err(InternalServerError::ConstructError(
                String::from_str("Response Body"),
                String::from_str(
                    "cannot use `set_raw_body` without setting the content type for the reposne\neither set content type with `add_header` method or use one of the `to_body` methods",
                ),
            ));
        };
        Ok(self)
    }

    pub fn add_header(&mut self, key: String, value: String) -> (r: InternalServerResult<&mut Self>)
        ensures
            (key@.len() == 0 || value@.len() == 0) ==> (r matches Err(e) && e@ == empty_header_error())
                && final(self)@ == old(self)@,
            !(key@.len() == 0 || value@.len() == 0) ==> (r matches Ok(s) && *final(self) == *final(s)
                && s@ == (ResponseView { headers: with_header(old(self)@.headers, key@, value@), ..old(self)@ })),
    {
        if key.as_str().is_empty() || value.as_str().is_empty() {
            return Err(InternalServerError::EmptyInputError(
                String::from_str("can not add empty strings to headers"),
            ));
        } else {
            self.headers.insert(key, value);
            Ok(self)
        }
    }

    pub fn set_status_code(&mut self, status: usize) -> (r: InternalServerResult<&mut Self>)
        ensures
            match status_reason(status) {
                Some(reason) => r matches Ok(s) && *final(self) == *final(s) && s@ == (ResponseView {
                    status_code: status_text(status, reason@),
                    ..old(self)@
                }),
                None => (r matches Err(e) && e@ == unsupported_status_error(status)) && final(self)@
                    == old(self)@,
            },
    {
        let line = match HttpStatusCodes::new().get(status) {
            Ok(l) => l,
            Err(_) => {
                let mut msg = decimal_string(status);
                msg.append(": status code is not supported");
                return Err(InternalServerError::ParseError(msg));
            },
        };
        let mut str_line = String::from_str(" ");
        str_line.append(decimal_string(line.0).as_str());
        str_line.append(" ");
        str_line.append(line.1);
        self.status_code = str_line;
        Ok(self)
    }

    /// Answers a request that no handler or file serves: status 404 and a
    /// text body naming the uri.
    pub fn not_found(&mut self, uri: &str) -> (r: InternalServerResult<()>)
        ensures
            names_distinct(final(self)@.headers),
            r is Ok,
            final(self)@ == with_text_body(
                ResponseView { status_code: status_text(404, "Not Found"@), ..old(self)@ },
                "text/html; charset=utf-8"@,
                "no handler for `"@ + uri@ + "` uri"@,
            ),
    {
        proof {
            use_type_invariant(&self.headers);
        }
        proof {
            crate::utils::http_status_codes::lemma_known_reasons();
            reveal_strlit("no handler for `");
        }
        match self.set_status_code(404) {
            Ok(_) => {},
            Err(e) => return Err(e),
        }
        let mut text = String::from_str("no handler for `");
        text.append(uri);
        text.append("` uri");
        match self.text_to_body(text) {
            Ok(_) => {},
            Err(e) => return Err(e),
        }
        Ok(())
    }

    /// Answers with a hosted file: status 200, the file's content type, and
    /// its bytes as the body.
    pub fn attach_static_file(&mut self, contents: Vec<u8>, kind: FileType) -> (r: InternalServerResult<()>)
        requires
            is_text_kind(kind) ==> valid_utf8(contents@),
        ensures
            names_distinct(final(self)@.headers),
            r is Ok,
            final(self)@ == (ResponseView {
                status_code: status_text(200, "OK"@),
                headers: with_header(
                    with_header(old(self)@.headers, "Content-Type"@, content_type_of(kind)@),
                    "Content-Length"@,
                    decimal(contents@.len()),
                ),
                body: if is_text_kind(kind) {
                    ResponseBodyView::String(decode_utf8(contents@))
                } else {
                    ResponseBodyView::Vec(contents@)
                },
                ..old(self)@
            }),
    {
        proof {
            use_type_invariant(&self.headers);
        }
        proof {
            crate::utils::http_status_codes::lemma_known_reasons();
            reveal_strlit("Content-Type");
            reveal_strlit("text/html");
            reveal_strlit("image/png");
            reveal_strlit("image/jpg");
            reveal_strlit("image/jpeg");
            reveal_strlit("testing `fail`");
        }
        match self.set_status_code(200) {
            Ok(_) => {},
            Err(e) => return Err(e),
        }
        let ghost before = self@.headers;
        match self.add_header(String::from_str("Content-Type"), String::from_str(kind.content_type())) {
            Ok(_) => {},
            Err(e) => return Err(e),
        }
        proof {
            lemma_header_set(before, "Content-Type"@, content_type_of(kind)@);
        }
        match self.set_body_raw(contents, kind) {
            Ok(_) => {},
            Err(e) => return Err(e),
        }
        Ok(())
    }

    /// turns the response struct into the bytes to be sent to the client
    pub fn build_final_response(response: HttpResponse) -> (r: InternalServerResult<Vec<u8>>)
        ensures
            r matches Ok(bytes) && bytes@ == response_bytes(response@),
    {
        let ghost v = response@;
        let mut head = response.version.clone();
        head.append(response.status_code.as_str());
        head.append(constants::CARRIAGE_RETURN);
        let n = response.headers.len();
        let mut i: usize = 0;
        assert(v.headers.take(0) =~= Seq::<(Seq<char>, Seq<char>)>::empty());
        while i < n
            invariant
                v == response@,
                n == v.headers.len(),
                i <= n,
                head@ == v.version + v.status_code + constants::CARRIAGE_RETURN@ + header_lines(
                    v.headers.take(i as int),
                ),
            decreases n - i,
        {
            let (key, val) = response.headers.entry(i);
            head.append(key.as_str());
            head.append(":");
            head.append(val.as_str());
            head.append(constants::CARRIAGE_RETURN);
            assert(v.headers.take(i + 1).drop_last() =~= v.headers.take(i as int));
            i = i + 1;
        }
        assert(v.headers.take(n as int) =~= v.headers);
        head.append(constants::CARRIAGE_RETURN);
        assert(head@ == response_head(v));
        match response.body {
            ValidResponse::String(s) => {
                head.append(s.as_str());
                head.append(constants::DOUBLE_CARRIAGE_RETURN);
                Ok(vstd::slice::slice_to_vec(head.as_str().as_bytes()))
            },
            ValidResponse::Vec(v) => {
                let mut out = vstd::slice::slice_to_vec(head.as_str().as_bytes());
                let mut body = v;
                out.append(&mut body);
                let mut tail = vstd::slice::slice_to_vec(constants::DOUBLE_CARRIAGE_RETURN.as_bytes());
                out.append(&mut tail);
                Ok(out)
            },
        }
    }
}

/// A header just set can be found again.
pub proof fn lemma_header_set(h: Seq<(Seq<char>, Seq<char>)>, name: Seq<char>, value: Seq<char>)
    ensures
        value_of(with_header(h, name, value), name) is Some,
{
    let after = with_header(h, name, value);
    match crate::types::http_types::headers::position_of(h, name) {
        Some(i) => {
            assert(after[i].0 == name);
        },
        None => {
            assert(after[h.len() as int].0 == name);
        },
    }
}

/// A body set from text is announced correctly: afterwards the response's
/// `Content-Type` is the given type and its `Content-Length` is the byte
/// length of the text, and still no header name occurs twice.
pub proof fn lemma_text_body_headers(v: ResponseView, content_type: Seq<char>, text: Seq<char>)
    requires
        names_distinct(v.headers),
    ensures
        names_distinct(with_text_body(v, content_type, text).headers),
        value_of(with_text_body(v, content_type, text).headers, "Content-Type"@) == Some(content_type),
        value_of(with_text_body(v, content_type, text).headers, "Content-Length"@) == Some(
            content_length(text),
        ),
{
    reveal_strlit("Content-Type");
    reveal_strlit("Content-Length");
    let h1 = with_header(v.headers, "Content-Type"@, content_type);
    lemma_header_read_after_write(v.headers, "Content-Type"@, content_type, "Content-Length"@);
    assert("Content-Type"@ != "Content-Length"@) by {
        assert("Content-Type"@.len() != "Content-Length"@.len());
    }
    lemma_header_read_after_write(h1, "Content-Length"@, content_length(text), "Content-Type"@);
}

/// Every header field is written, once, in order: no field gives no line,
/// one more field adds exactly its `name:value` line at the end, and the
/// lines of two runs of fields are those of each, one after the other.
pub proof fn lemma_header_lines(
    h: Seq<(Seq<char>, Seq<char>)>,
    g: Seq<(Seq<char>, Seq<char>)>,
    p: (Seq<char>, Seq<char>),
)
    ensures
        header_lines(Seq::empty()) == Seq::<char>::empty(),
        header_lines(h.push(p)) == header_lines(h) + p.0 + ":"@ + p.1 + "\r\n"@,
        header_lines(h + g) == header_lines(h) + header_lines(g),
    decreases g.len(),
{
    assert(h.push(p).drop_last() =~= h);
    if g.len() == 0 {
        assert(h + g =~= h);
        assert(header_lines(h) + header_lines(g) =~= header_lines(h));
    } else {
        lemma_header_lines(h, g.drop_last(), p);
        assert((h + g).drop_last() =~= h + g.drop_last());
        assert((h + g).last() == g.last());
        assert(header_lines(h + g) =~= header_lines(h) + header_lines(g));
    }
}

} // verus!
