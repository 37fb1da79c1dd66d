use crate::types::error_types::internal_server_error::{InternalServerError, ServerErrorView};
use crate::types::error_types::internal_server_result::InternalServerResult;
use crate::utils::constants;
use crate::utils::https_methods::{interpreted_method, invalid_method_error, HttpMethods};
use crate::utils::text::{
    find_from, lemma_no_occurrence_without_first, lemma_split_cons,
    lemma_split_nonempty, lemma_split_single, occurs_at, split, split_once_str, split_str,
    string_from_utf8,
};
use vstd::prelude::*;
use vstd::utf8::{decode_utf8, valid_utf8};

verus! {

/// The lines of the part of a request before the first blank line.
pub open spec fn request_lines(info: Seq<char>) -> Seq<Seq<char>> {
    split(info, constants::CARRIAGE_RETURN@)
}

/// The space-separated parts of the request line: method, uri and version.
pub open spec fn request_line_parts(info: Seq<char>) -> Seq<Seq<char>> {
    split(request_lines(info)[0], constants::SINGLE_SPACE@)
}

/// The HTTP version named by the third part of the request line: what
/// follows its first `/`, or `1.1` when it has none.
pub open spec fn version_of(part: Seq<char>) -> Seq<char> {
    match find_from(part, "/"@, 0) {
        Some(i) => part.subrange(i + 1, part.len() as int),
        None => "1.1"@,
    }
}

/// The parts of a raw request between its blank lines.
pub open spec fn request_sections(raw: Seq<char>) -> Seq<Seq<char>> {
    split(raw, constants::DOUBLE_CARRIAGE_RETURN@)
}

pub open spec fn no_request_line_error() -> ServerErrorView {
    ServerErrorView::FatalError("no request line was parsed"@)
}

/// The request parsed from its sections: the first holds the request line
/// and the header lines, the last is the body.
pub open spec fn parsed_from_sections(
    sections: Seq<Seq<char>>,
    r: InternalServerResult<HttpRequest>,
) -> bool {
    if sections.len() == 0 {
        r matches Err(e) && e@ == no_request_line_error()
    } else {
        let parts = request_line_parts(sections[0]);
        match interpreted_method(parts[0]) {
            None => r matches Err(e) && e@ == invalid_method_error(),
            Some(m) => r matches Ok(req) && req.method == m && req.uri@ == parts[1] && req.version@
                == version_of(parts[2]) && req.body@ == sections.last() && req.headers@.map_values(
                |h: String| h@,
            ) == request_lines(sections[0]).drop_first(),
        }
    }
}

/// request struct the raw http request is parsed into
#[derive(Debug)]
pub struct HttpRequest {
    pub method: HttpMethods,
    pub uri: String,
    pub version: String,
    pub body: String,
    pub headers: Vec<String>,
    pub raw_request_string: String,
}

/// the request that was passed by the user and parsed into a readable struct
impl HttpRequest {
    /// Builds a request from the sections of a raw request.
    pub fn build_http_request(split_request: Vec<&str>) -> (r: InternalServerResult<HttpRequest>)
        requires
            split_request@.len() > 0 ==> request_line_parts(split_request@[0]@).len() >= 3,
        ensures
            parsed_from_sections(split_request@.map_values(|s: &str| s@), r),
            r matches Ok(req) ==> req.raw_request_string@ == Seq::<char>::empty(),
    {
        let ghost sections = split_request@.map_values(|s: &str| s@);
        if split_request.len() == 0 {
            return Err(InternalServerError::FatalError(String::from_str("no request line was parsed")));
        }
        proof {
            reveal_strlit("\r\n");
            reveal_strlit(" ");
            reveal_strlit("/");
            lemma_split_nonempty(split_request@[0]@, constants::CARRIAGE_RETURN@);
        }
        let info_line = split_request[0];
        // if body is empty this will be a empty string no need to check for the none value
        let request_body = split_request[split_request.len() - 1];
        let chuck_request_line = split_str(info_line, constants::CARRIAGE_RETURN);
        let request_line = chuck_request_line[0];
        let parts = split_str(request_line, constants::SINGLE_SPACE);
        let method = parts[0];
        let uri = parts[1];
        let version = match split_once_str(parts[2], "/") {
            Some((_, after)) => String::from_str(after),
            None => String::from_str("1.1"),
        };
        let ghost lines = request_lines(info_line@);
        let mut headers: Vec<String> = Vec::new();
        let n = chuck_request_line.len();
        let mut i: usize = 1;
        assert(headers@.map_values(|h: String| h@) =~= lines.subrange(1, 1));
        while i < n
            invariant
                n == lines.len(),
                n == chuck_request_line@.len(),
                1 <= i <= n,
                forall|j: int| 0 <= j < n ==> #[trigger] chuck_request_line@[j]@ == lines[j],
                headers@.map_values(|h: String| h@) == lines.subrange(1, i as int),
            decreases n - i,
        {
            let line = String::from_str(chuck_request_line[i]);
            assert(line@ == lines[i as int]);
            let ghost prev = headers@;
            headers.push(line);
            assert(headers@.map_values(|h: String| h@) =~= prev.map_values(|h: String| h@).push(
                lines[i as int],
            ));
            assert(lines.subrange(1, i + 1) =~= lines.subrange(1, i as int).push(lines[i as int]));
            i = i + 1;
        }
        assert(lines.subrange(1, n as int) =~= lines.drop_first());
        let method = match HttpMethods::interpret(method) {
            Ok(m) => m,
            Err(e) => return Err(e),
        };
        assert(sections[0] == info_line@);
        Ok(HttpRequest {
            raw_request_string: String::new(),
            uri: String::from_str(uri),
            headers,
            body: String::from_str(request_body),
            version,
            method,
        })
    }

    /// Whether the request line of `raw` has the method, uri and version parts
    /// that `from_raw_request` reads.
    pub fn request_line_is_complete(raw: &str) -> (r: bool)
        ensures
            r == (request_line_parts(request_sections(raw@)[0]).len() >= 3),
    {
        proof {
            reveal_strlit("\r\n\r\n");
            reveal_strlit("\r\n");
            reveal_strlit(" ");
            lemma_split_nonempty(raw@, constants::DOUBLE_CARRIAGE_RETURN@);
        }
        let sections = split_str(raw, constants::DOUBLE_CARRIAGE_RETURN);
        proof {
            lemma_split_nonempty(sections@[0]@, constants::CARRIAGE_RETURN@);
        }
        let lines = split_str(sections[0], constants::CARRIAGE_RETURN);
        let parts = split_str(lines[0], constants::SINGLE_SPACE);
        parts.len() >= 3
    }

    /// Parses the text of a request as the server received it.
    pub fn from_raw_request(raw: String) -> (r: InternalServerResult<HttpRequest>)
        requires
            request_line_parts(request_sections(raw@)[0]).len() >= 3,
        ensures
            parsed_from_sections(request_sections(raw@), r),
            r matches Ok(req) ==> req.raw_request_string@ == raw@,
    {
        proof {
            reveal_strlit("\r\n\r\n");
            lemma_split_nonempty(raw@, constants::DOUBLE_CARRIAGE_RETURN@);
        }
        let result = {
            let split_request = split_str(raw.as_str(), constants::DOUBLE_CARRIAGE_RETURN);
            assert(split_request@.map_values(|s: &str| s@) =~= request_sections(raw@));
            Self::build_http_request(split_request)
        };
        match result {
            Ok(mut req) => {
                req.raw_request_string = raw;
                Ok(req)
            },
            Err(e) => Err(e),
        }
    }

    /// Parses a request from the bytes the server received: `None` when they
    /// are not UTF-8 text, else the request parsed from that text.
    pub fn parse_request_bytes(raw: Vec<u8>) -> (r: Option<InternalServerResult<HttpRequest>>)
        requires
            valid_utf8(raw@) ==> request_line_parts(request_sections(decode_utf8(raw@))[0]).len()
                >= 3,
        ensures
            r is None <==> !valid_utf8(raw@),
            r matches Some(p) ==> parsed_from_sections(request_sections(decode_utf8(raw@)), p),
            r matches Some(p) ==> (p matches Ok(req) ==> req.raw_request_string@ == decode_utf8(
                raw@,
            )),
    {
        match string_from_utf8(raw) {
            Some(text) => Some(Self::from_raw_request(text)),
            None => None,
        }
    }
}

/// `x` holds no line break characters.
pub open spec fn line_free(x: Seq<char>) -> bool {
    forall|i: int| 0 <= i < x.len() ==> #[trigger] x[i] != '\r' && x[i] != '\n'
}

/// `x` holds no space.
pub open spec fn space_free(x: Seq<char>) -> bool {
    forall|i: int| 0 <= i < x.len() ==> #[trigger] x[i] != ' '
}

/// Header lines as they follow the request line: each after a line break.
pub open spec fn header_block(headers: Seq<Seq<char>>) -> Seq<char>
    decreases headers.len(),
{
    if headers.len() == 0 {
        Seq::empty()
    } else {
        constants::CARRIAGE_RETURN@ + headers[0] + header_block(headers.drop_first())
    }
}

/// The text of a request with the given parts.
pub open spec fn request_text(
    method: Seq<char>,
    uri: Seq<char>,
    version: Seq<char>,
    headers: Seq<Seq<char>>,
    body: Seq<char>,
) -> Seq<char> {
    method + " "@ + uri + " "@ + "HTTP/"@ + version + header_block(headers)
        + constants::DOUBLE_CARRIAGE_RETURN@ + body
}

/// A line, then header lines, splits at line breaks into the line and the headers.
proof fn lemma_split_header_block(x: Seq<char>, headers: Seq<Seq<char>>)
    requires
        line_free(x),
        forall|k: int| 0 <= k < headers.len() ==> line_free(#[trigger] headers[k]),
    ensures
        split(x + header_block(headers), constants::CARRIAGE_RETURN@) == seq![x] + headers,
    decreases headers.len(),
{
    reveal_strlit("\r\n");
    let crlf = constants::CARRIAGE_RETURN@;
    if headers.len() == 0 {
        assert(x + header_block(headers) =~= x);
        assert forall|p: int| 0 <= p implies !occurs_at(x, crlf, p) by {
            if 0 <= p < x.len() {
                lemma_no_occurrence_without_first(x, crlf, p);
            }
        }
        lemma_split_single(x, crlf);
        assert(seq![x] + headers =~= seq![x]);
    } else {
        let rest = headers.drop_first();
        let y = headers[0] + header_block(rest);
        assert(x + header_block(headers) =~= x + crlf + y);
        assert forall|p: int| 0 <= p < x.len() implies !occurs_at(x + crlf + y, crlf, p) by {
            lemma_no_occurrence_without_first(x + crlf + y, crlf, p);
        }
        lemma_split_cons(x, crlf, y);
        assert forall|k: int| 0 <= k < rest.len() implies line_free(#[trigger] rest[k]) by {
            assert(rest[k] == headers[k + 1]);
        }
        assert(line_free(headers[0]));
        lemma_split_header_block(headers[0], rest);
        assert(seq![x] + (seq![headers[0]] + rest) =~= seq![x] + headers);
    }
}

/// In a line followed by non-empty header lines, every carriage return opens
/// a line break that is followed by more text.
proof fn lemma_header_block_breaks(x: Seq<char>, headers: Seq<Seq<char>>, p: int)
    requires
        line_free(x),
        forall|k: int| 0 <= k < headers.len() ==> line_free(#[trigger] headers[k])
            && headers[k].len() > 0,
        0 <= p < (x + header_block(headers)).len(),
        (x + header_block(headers))[p] == '\r',
    ensures
        p + 2 < (x + header_block(headers)).len(),
        (x + header_block(headers))[p + 2] != '\r',
    decreases headers.len(),
{
    reveal_strlit("\r\n");
    let crlf = constants::CARRIAGE_RETURN@;
    if headers.len() == 0 {
        assert(x + header_block(headers) =~= x);
    } else {
        let rest = headers.drop_first();
        let y = headers[0] + header_block(rest);
        let info = x + header_block(headers);
        assert(info =~= x + crlf + y);
        assert(line_free(headers[0]) && headers[0].len() > 0);
        if p < x.len() {
            assert(info[p] == x[p]);
        } else if p == x.len() {
            assert(info[p + 2] == y[0]);
            assert(y[0] == headers[0][0]);
        } else if p == x.len() + 1 {
            assert(info[p] == '\n');
        } else {
            let q = p - x.len() - 2;
            assert(info[p] == y[q]);
            assert forall|k: int| 0 <= k < rest.len() implies line_free(#[trigger] rest[k]) && rest[k].len()
                > 0 by {
                assert(rest[k] == headers[k + 1]);
            }
            lemma_header_block_breaks(headers[0], rest, q);
            assert(info[p + 2] == y[q + 2]);
        }
    }
}

/// Parsing reads back the parts a request was written from: the method name,
/// uri and version of the request line, the header lines and the body, when
/// no part holds a line break, the request line's parts hold no space, the
/// header lines are not empty and the body holds no blank line.
pub proof fn lemma_parse_request_text(
    method: Seq<char>,
    uri: Seq<char>,
    version: Seq<char>,
    headers: Seq<Seq<char>>,
    body: Seq<char>,
)
    requires
        line_free(method) && space_free(method),
        line_free(uri) && space_free(uri),
        line_free(version) && space_free(version),
        forall|k: int| 0 <= k < headers.len() ==> line_free(#[trigger] headers[k])
            && headers[k].len() > 0,
        forall|p: int| 0 <= p ==> !occurs_at(body, constants::DOUBLE_CARRIAGE_RETURN@, p),
    ensures
        request_sections(request_text(method, uri, version, headers, body)).len() == 2,
        request_sections(request_text(method, uri, version, headers, body)).last() == body,
        request_line_parts(request_sections(request_text(method, uri, version, headers, body))[0])
            == seq![method, uri, "HTTP/"@ + version],
        request_lines(request_sections(request_text(method, uri, version, headers, body))[0]).drop_first()
            == headers,
        version_of("HTTP/"@ + version) == version,
{
    reveal_strlit("\r\n");
    reveal_strlit("\r\n\r\n");
    reveal_strlit(" ");
    reveal_strlit("/");
    reveal_strlit("HTTP/");
    let sp = " "@;
    let crlf = constants::CARRIAGE_RETURN@;
    let dcr = constants::DOUBLE_CARRIAGE_RETURN@;
    let tail = "HTTP/"@ + version;
    let line = method + sp + uri + sp + tail;
    let info = line + header_block(headers);
    let raw = request_text(method, uri, version, headers, body);
    assert(raw =~= info + dcr + body);
    // the request line
    assert(line_free(tail));
    assert(line_free(line));
    assert(space_free(tail)) by {
        assert forall|i: int| 0 <= i < tail.len() implies #[trigger] tail[i] != ' ' by {
            if i >= 5 {
                assert(tail[i] == version[i - 5]);
            }
        }
    }
    // the sections at the blank line
    assert forall|p: int| 0 <= p < info.len() implies !occurs_at(info + dcr + body, dcr, p) by {
        let t = info + dcr + body;
        if t[p] == '\r' {
            lemma_header_block_breaks(line, headers, p);
            if occurs_at(t, dcr, p) {
                assert(t.subrange(p, p + 4)[2] == t[p + 2]);
            }
        } else {
            lemma_no_occurrence_without_first(t, dcr, p);
        }
    }
    lemma_split_cons(info, dcr, body);
    lemma_split_single(body, dcr);
    // the lines
    lemma_split_header_block(line, headers);
    assert(request_lines(info) == seq![line] + headers);
    assert((seq![line] + headers)[0] == line);
    assert((seq![line] + headers).drop_first() =~= headers);
    // the parts of the request line
    assert(line =~= method + sp + (uri + sp + tail));
    assert forall|p: int| 0 <= p < method.len() implies !occurs_at(method + sp + (uri + sp + tail), sp, p) by {
        lemma_no_occurrence_without_first(method + sp + (uri + sp + tail), sp, p);
    }
    lemma_split_cons(method, sp, uri + sp + tail);
    assert forall|p: int| 0 <= p < uri.len() implies !occurs_at(uri + sp + tail, sp, p) by {
        lemma_no_occurrence_without_first(uri + sp + tail, sp, p);
    }
    lemma_split_cons(uri, sp, tail);
    assert forall|p: int| 0 <= p implies !occurs_at(tail, sp, p) by {
        if p < tail.len() {
            lemma_no_occurrence_without_first(tail, sp, p);
        }
    }
    lemma_split_single(tail, sp);
    assert(seq![method] + (seq![uri] + seq![tail]) =~= seq![method, uri, tail]);
    // the version
    let slash = "/"@;
    assert(tail.subrange(4, 5) =~= slash);
    assert(find_from(tail, slash, 4) == Some(4int));
    assert forall|p: int| 0 <= p < 4 implies !occurs_at(tail, slash, p) by {
        lemma_no_occurrence_without_first(tail, slash, p);
    }
    assert(find_from(tail, slash, 3) == Some(4int));
    assert(find_from(tail, slash, 2) == Some(4int));
    assert(find_from(tail, slash, 1) == Some(4int));
    assert(find_from(tail, slash, 0) == Some(4int));
    assert(tail.subrange(5, tail.len() as int) =~= version);
}

} // verus!
