use vstd::prelude::*;

verus! {

/// alias for the https status code
/// usize: status code for the repsonse,
/// str: corasponding string for status code
pub type StatusCode = (usize, &'static str);

/// number of https status codes
pub const N_HTTP_STATUS_CODES: usize = 59;

/// The status codes the server knows, each with its reason phrase, in table order.
pub open spec fn status_table() -> Seq<StatusCode> {
    seq![
        (100, "Continue"),
        (101, "Switching Protocols"),
        (102, "Processing"),
        (103, "Early Hints"),
        (200, "OK"),
        (201, "Created"),
        (202, "Accepted"),
        (203, "Non-Authoritative Information"),
        (204, "No Content"),
        (205, "Reset Content"),
        (206, "Partial Content"),
        (207, "Multi-Status"),
        (208, "Already Reported"),
        (226, "IM Used"),
        (300, "Multiple Choices"),
        (301, "Moved Permanently"),
        (302, "Found"),
        (303, "See Other"),
        (304, "Not Modified"),
        (307, "Temporary Redirect"),
        (308, "Permanent Redirect"),
        (400, "Bad Request"),
        (401, "Unauthorized"),
        (402, "Payment Required"),
        (403, "Forbidden"),
        (404, "Not Found"),
        (405, "Method Not Allowed"),
        (406, "Not Acceptable"),
        (407, "Proxy Authentication Required"),
        (408, "Request Timeout"),
        (409, "Conflict"),
        (410, "Gone"),
        (411, "Length Required"),
        (412, "Precondition Failed"),
        (413, "Content Too Large"),
        (414, "URI Too Long"),
        (415, "Unsupported Media Type"),
        (416, "Range Not Satisfiable"),
        (417, "Expectation Failed"),
        (421, "Misdirected Request"),
        (422, "Unprocessable Content"),
        (423, "Locked"),
        (424, "Failed Dependency"),
        (425, "Too Early"),
        (426, "Upgrade Required"),
        (428, "Precondition Required"),
        (429, "Too Many Requests"),
        (431, "Request Header Fields Too Large"),
        (451, "Unavailable for Legal Reasons"),
        (500, "Internal Server Error"),
        (501, "Not Implemented"),
        (502, "Bad Gateway"),
        (503, "Service Unavailable"),
        (504, "Gateway Timeout"),
        (505, "HTTP Version Not Supported"),
        (506, "Variant Also Negotiates"),
        (507, "Insufficient Storage"),
        (508, "Loop Detected"),
        (511, "Network Authentication Required"),
    ]
}

/// The reason phrase of the first entry of `t` whose code is `code`.
pub open spec fn lookup_status(t: Seq<StatusCode>, code: usize) -> Option<&'static str>
    decreases t.len(),
{
    if t.len() == 0 {
        None
    } else if t[0].0 == code {
        Some(t[0].1)
    } else {
        lookup_status(t.drop_first(), code)
    }
}

/// The reason phrase the server gives the status code `code`, if it knows the code.
pub open spec fn status_reason(code: usize) -> Option<&'static str> {
    lookup_status(status_table(), code)
}

pub struct HttpStatusCodes {
    codes: [StatusCode; N_HTTP_STATUS_CODES],
}

impl View for HttpStatusCodes {
    type V = Seq<StatusCode>;

    /// The table, in order.
    closed spec fn view(&self) -> Seq<StatusCode> {
        self.codes@
    }
}

impl HttpStatusCodes {
    #[verifier::type_invariant]
    spec fn holds_table(&self) -> bool {
        self.codes@ == status_table()
    }

    pub fn new() -> (r: Self)
        ensures
            r@ == status_table(),
    {
        let codes: [StatusCode; N_HTTP_STATUS_CODES] = [
            (100, "Continue"),
            (101, "Switching Protocols"),
            (102, "Processing"),
            (103, "Early Hints"),
            (200, "OK"),
            (201, "Created"),
            (202, "Accepted"),
            (203, "Non-Authoritative Information"),
            (204, "No Content"),
            (205, "Reset Content"),
            (206, "Partial Content"),
            (207, "Multi-Status"),
            (208, "Already Reported"),
            (226, "IM Used"),
            (300, "Multiple Choices"),
            (301, "Moved Permanently"),
            (302, "Found"),
            (303, "See Other"),
            (304, "Not Modified"),
            (307, "Temporary Redirect"),
            (308, "Permanent Redirect"),
            (400, "Bad Request"),
            (401, "Unauthorized"),
            (402, "Payment Required"),
            (403, "Forbidden"),
            (404, "Not Found"),
            (405, "Method Not Allowed"),
            (406, "Not Acceptable"),
            (407, "Proxy Authentication Required"),
            (408, "Request Timeout"),
            (409, "Conflict"),
            (410, "Gone"),
            (411, "Length Required"),
            (412, "Precondition Failed"),
            (413, "Content Too Large"),
            (414, "URI Too Long"),
            (415, "Unsupported Media Type"),
            (416, "Range Not Satisfiable"),
            (417, "Expectation Failed"),
            (421, "Misdirected Request"),
            (422, "Unprocessable Content"),
            (423, "Locked"),
            (424, "Failed Dependency"),
            (425, "Too Early"),
            (426, "Upgrade Required"),
            (428, "Precondition Required"),
            (429, "Too Many Requests"),
            (431, "Request Header Fields Too Large"),
            (451, "Unavailable for Legal Reasons"),
            (500, "Internal Server Error"),
            (501, "Not Implemented"),
            (502, "Bad Gateway"),
            (503, "Service Unavailable"),
            (504, "Gateway Timeout"),
            (505, "HTTP Version Not Supported"),
            (506, "Variant Also Negotiates"),
            (507, "Insufficient Storage"),
            (508, "Loop Detected"),
            (511, "Network Authentication Required"),
        ];
        assert(codes@ =~= status_table());
        HttpStatusCodes { codes }
    }

    /// Whether `val` is a status code the server knows.
    pub fn has(self, val: usize) -> (r: bool)
        ensures
            r == status_reason(val) is Some,
    {
        match self.get(val) {
            Ok(_) => true,
            Err(_) => false,
        }
    }

    /// return the status code and reason based off of given status code
    pub fn get(self, code: usize) -> (r: Result<StatusCode, String>)
        ensures
            match status_reason(code) {
                Some(reason) => r matches Ok(p) && p.0 == code && p.1 == reason,
                None => r matches Err(msg) && msg@ == "invalid status code was given"@,
            },
    {
        proof {
            use_type_invariant(&self);
        }
        let mut i: usize = 0;
        assert(status_table().skip(0) =~= status_table());
        while i < N_HTTP_STATUS_CODES
            invariant
                self.codes@ == status_table(),
                i <= N_HTTP_STATUS_CODES,
                lookup_status(status_table(), code) == lookup_status(status_table().skip(i as int), code),
            decreases N_HTTP_STATUS_CODES - i,
        {
            let (c, f) = self.codes[i];
            assert(status_table().skip(i as int).drop_first() =~= status_table().skip(i + 1));
            if code == c {
                return Ok((c, f));
            }
            i = i + 1;
        }
        assert(status_table().skip(N_HTTP_STATUS_CODES as int) =~= Seq::<StatusCode>::empty());
        Err(String::from_str("invalid status code was given"))
    }
}

/// The codes the server itself answers with are in the table.
pub proof fn lemma_known_reasons()
    ensures
        status_reason(200) == Some("OK"),
        status_reason(404) == Some("Not Found"),
{
    let t = status_table();
    assert(t[4] == (200usize, "OK"));
    assert(t[25] == (404usize, "Not Found"));
    assert forall|j: int| 0 <= j < 25 implies #[trigger] t[j].0 != 404 by {}
    lemma_lookup_at(t, 200, 4);
    lemma_lookup_at(t, 404, 25);
}

/// The entry found for `code` is its first occurrence in the table.
proof fn lemma_lookup_at(t: Seq<StatusCode>, code: usize, k: int)
    requires
        0 <= k < t.len(),
        t[k].0 == code,
        forall|j: int| 0 <= j < k ==> #[trigger] t[j].0 != code,
    ensures
        lookup_status(t, code) == Some(t[k].1),
    decreases k,
{
    if k > 0 {
        lemma_lookup_at(t.drop_first(), code, k - 1);
    }
}

/// From position `k` on, the codes of `t` strictly increase.
pub open spec fn increasing_from(t: Seq<StatusCode>, k: int) -> bool
    decreases t.len() - k,
{
    if k < 0 || k + 1 >= t.len() {
        true
    } else {
        t[k].0 < t[k + 1].0 && increasing_from(t, k + 1)
    }
}

proof fn lemma_increasing_tail(t: Seq<StatusCode>, j: int)
    requires
        increasing_from(t, 0),
        0 <= j,
    ensures
        increasing_from(t, j),
    decreases j,
{
    if j > 0 {
        lemma_increasing_tail(t, j - 1);
    }
}

proof fn lemma_increasing_below(t: Seq<StatusCode>, i: int, k: int)
    requires
        increasing_from(t, i),
        0 <= i < k < t.len(),
    ensures
        t[i].0 < t[k].0,
    decreases k - i,
{
    if k > i + 1 {
        lemma_increasing_below(t, i + 1, k);
    }
}

/// In a table whose codes increase, the entry found for a code is the one holding it.
proof fn lemma_lookup_increasing(t: Seq<StatusCode>, k: int)
    requires
        increasing_from(t, 0),
        0 <= k < t.len(),
    ensures
        lookup_status(t, t[k].0) == Some(t[k].1),
{
    assert forall|j: int| 0 <= j < k implies #[trigger] t[j].0 != t[k].0 by {
        lemma_increasing_tail(t, j);
        lemma_increasing_below(t, j, k);
    }
    lemma_lookup_at(t, t[k].0, k);
}

#[verifier::rlimit(50)]
proof fn lemma_table_increasing()
    ensures
        increasing_from(status_table(), 0),
{
    let t = status_table();
    assert(t[0].0 == 100);
    assert(t[1].0 == 101);
    assert(t[2].0 == 102);
    assert(t[3].0 == 103);
    assert(t[4].0 == 200);
    assert(t[5].0 == 201);
    assert(t[6].0 == 202);
    assert(t[7].0 == 203);
    assert(t[8].0 == 204);
    assert(t[9].0 == 205);
    assert(t[10].0 == 206);
    assert(t[11].0 == 207);
    assert(t[12].0 == 208);
    assert(t[13].0 == 226);
    assert(t[14].0 == 300);
    assert(t[15].0 == 301);
    assert(t[16].0 == 302);
    assert(t[17].0 == 303);
    assert(t[18].0 == 304);
    assert(t[19].0 == 307);
    assert(t[20].0 == 308);
    assert(t[21].0 == 400);
    assert(t[22].0 == 401);
    assert(t[23].0 == 402);
    assert(t[24].0 == 403);
    assert(t[25].0 == 404);
    assert(t[26].0 == 405);
    assert(t[27].0 == 406);
    assert(t[28].0 == 407);
    assert(t[29].0 == 408);
    assert(t[30].0 == 409);
    assert(t[31].0 == 410);
    assert(t[32].0 == 411);
    assert(t[33].0 == 412);
    assert(t[34].0 == 413);
    assert(t[35].0 == 414);
    assert(t[36].0 == 415);
    assert(t[37].0 == 416);
    assert(t[38].0 == 417);
    assert(t[39].0 == 421);
    assert(t[40].0 == 422);
    assert(t[41].0 == 423);
    assert(t[42].0 == 424);
    assert(t[43].0 == 425);
    assert(t[44].0 == 426);
    assert(t[45].0 == 428);
    assert(t[46].0 == 429);
    assert(t[47].0 == 431);
    assert(t[48].0 == 451);
    assert(t[49].0 == 500);
    assert(t[50].0 == 501);
    assert(t[51].0 == 502);
    assert(t[52].0 == 503);
    assert(t[53].0 == 504);
    assert(t[54].0 == 505);
    assert(t[55].0 == 506);
    assert(t[56].0 == 507);
    assert(t[57].0 == 508);
    assert(t[58].0 == 511);
    assert(increasing_from(t, 58));
    assert(increasing_from(t, 57));
    assert(increasing_from(t, 56));
    assert(increasing_from(t, 55));
    assert(increasing_from(t, 54));
    assert(increasing_from(t, 53));
    assert(increasing_from(t, 52));
    assert(increasing_from(t, 51));
    assert(increasing_from(t, 50));
    assert(increasing_from(t, 49));
    assert(increasing_from(t, 48));
    assert(increasing_from(t, 47));
    assert(increasing_from(t, 46));
    assert(increasing_from(t, 45));
    assert(increasing_from(t, 44));
    assert(increasing_from(t, 43));
    assert(increasing_from(t, 42));
    assert(increasing_from(t, 41));
    assert(increasing_from(t, 40));
    assert(increasing_from(t, 39));
    assert(increasing_from(t, 38));
    assert(increasing_from(t, 37));
    assert(increasing_from(t, 36));
    assert(increasing_from(t, 35));
    assert(increasing_from(t, 34));
    assert(increasing_from(t, 33));
    assert(increasing_from(t, 32));
    assert(increasing_from(t, 31));
    assert(increasing_from(t, 30));
    assert(increasing_from(t, 29));
    assert(increasing_from(t, 28));
    assert(increasing_from(t, 27));
    assert(increasing_from(t, 26));
    assert(increasing_from(t, 25));
    assert(increasing_from(t, 24));
    assert(increasing_from(t, 23));
    assert(increasing_from(t, 22));
    assert(increasing_from(t, 21));
    assert(increasing_from(t, 20));
    assert(increasing_from(t, 19));
    assert(increasing_from(t, 18));
    assert(increasing_from(t, 17));
    assert(increasing_from(t, 16));
    assert(increasing_from(t, 15));
    assert(increasing_from(t, 14));
    assert(increasing_from(t, 13));
    assert(increasing_from(t, 12));
    assert(increasing_from(t, 11));
    assert(increasing_from(t, 10));
    assert(increasing_from(t, 9));
    assert(increasing_from(t, 8));
    assert(increasing_from(t, 7));
    assert(increasing_from(t, 6));
    assert(increasing_from(t, 5));
    assert(increasing_from(t, 4));
    assert(increasing_from(t, 3));
    assert(increasing_from(t, 2));
    assert(increasing_from(t, 1));
    assert(increasing_from(t, 0));
}

/// Every status code the server knows, with its reason phrase: the codes of
/// RFC 9110 and its companions that the server answers with.
pub proof fn lemma_status_reasons()
    ensures
        status_reason(100) == Some("Continue"),
        status_reason(101) == Some("Switching Protocols"),
        status_reason(102) == Some("Processing"),
        status_reason(103) == Some("Early Hints"),
        status_reason(200) == Some("OK"),
        status_reason(201) == Some("Created"),
        status_reason(202) == Some("Accepted"),
        status_reason(203) == Some("Non-Authoritative Information"),
        status_reason(204) == Some("No Content"),
        status_reason(205) == Some("Reset Content"),
        status_reason(206) == Some("Partial Content"),
        status_reason(207) == Some("Multi-Status"),
        status_reason(208) == Some("Already Reported"),
        status_reason(226) == Some("IM Used"),
        status_reason(300) == Some("Multiple Choices"),
        status_reason(301) == Some("Moved Permanently"),
        status_reason(302) == Some("Found"),
        status_reason(303) == Some("See Other"),
        status_reason(304) == Some("Not Modified"),
        status_reason(307) == Some("Temporary Redirect"),
        status_reason(308) == Some("Permanent Redirect"),
        status_reason(400) == Some("Bad Request"),
        status_reason(401) == Some("Unauthorized"),
        status_reason(402) == Some("Payment Required"),
        status_reason(403) == Some("Forbidden"),
        status_reason(404) == Some("Not Found"),
        status_reason(405) == Some("Method Not Allowed"),
        status_reason(406) == Some("Not Acceptable"),
        status_reason(407) == Some("Proxy Authentication Required"),
        status_reason(408) == Some("Request Timeout"),
        status_reason(409) == Some("Conflict"),
        status_reason(410) == Some("Gone"),
        status_reason(411) == Some("Length Required"),
        status_reason(412) == Some("Precondition Failed"),
        status_reason(413) == Some("Content Too Large"),
        status_reason(414) == Some("URI Too Long"),
        status_reason(415) == Some("Unsupported Media Type"),
        status_reason(416) == Some("Range Not Satisfiable"),
        status_reason(417) == Some("Expectation Failed"),
        status_reason(421) == Some("Misdirected Request"),
        status_reason(422) == Some("Unprocessable Content"),
        status_reason(423) == Some("Locked"),
        status_reason(424) == Some("Failed Dependency"),
        status_reason(425) == Some("Too Early"),
        status_reason(426) == Some("Upgrade Required"),
        status_reason(428) == Some("Precondition Required"),
        status_reason(429) == Some("Too Many Requests"),
        status_reason(431) == Some("Request Header Fields Too Large"),
        status_reason(451) == Some("Unavailable for Legal Reasons"),
        status_reason(500) == Some("Internal Server Error"),
        status_reason(501) == Some("Not Implemented"),
        status_reason(502) == Some("Bad Gateway"),
        status_reason(503) == Some("Service Unavailable"),
        status_reason(504) == Some("Gateway Timeout"),
        status_reason(505) == Some("HTTP Version Not Supported"),
        status_reason(506) == Some("Variant Also Negotiates"),
        status_reason(507) == Some("Insufficient Storage"),
        status_reason(508) == Some("Loop Detected"),
        status_reason(511) == Some("Network Authentication Required"),
{
    let t = status_table();
    lemma_table_increasing();
    assert(t[0] == (100usize, "Continue"));
    lemma_lookup_increasing(t, 0);
    assert(t[1] == (101usize, "Switching Protocols"));
    lemma_lookup_increasing(t, 1);
    assert(t[2] == (102usize, "Processing"));
    lemma_lookup_increasing(t, 2);
    assert(t[3] == (103usize, "Early Hints"));
    lemma_lookup_increasing(t, 3);
    assert(t[4] == (200usize, "OK"));
    lemma_lookup_increasing(t, 4);
    assert(t[5] == (201usize, "Created"));
    lemma_lookup_increasing(t, 5);
    assert(t[6] == (202usize, "Accepted"));
    lemma_lookup_increasing(t, 6);
    assert(t[7] == (203usize, "Non-Authoritative Information"));
    lemma_lookup_increasing(t, 7);
    assert(t[8] == (204usize, "No Content"));
    lemma_lookup_increasing(t, 8);
    assert(t[9] == (205usize, "Reset Content"));
    lemma_lookup_increasing(t, 9);
    assert(t[10] == (206usize, "Partial Content"));
    lemma_lookup_increasing(t, 10);
    assert(t[11] == (207usize, "Multi-Status"));
    lemma_lookup_increasing(t, 11);
    assert(t[12] == (208usize, "Already Reported"));
    lemma_lookup_increasing(t, 12);
    assert(t[13] == (226usize, "IM Used"));
    lemma_lookup_increasing(t, 13);
    assert(t[14] == (300usize, "Multiple Choices"));
    lemma_lookup_increasing(t, 14);
    assert(t[15] == (301usize, "Moved Permanently"));
    lemma_lookup_increasing(t, 15);
    assert(t[16] == (302usize, "Found"));
    lemma_lookup_increasing(t, 16);
    assert(t[17] == (303usize, "See Other"));
    lemma_lookup_increasing(t, 17);
    assert(t[18] == (304usize, "Not Modified"));
    lemma_lookup_increasing(t, 18);
    assert(t[19] == (307usize, "Temporary Redirect"));
    lemma_lookup_increasing(t, 19);
    assert(t[20] == (308usize, "Permanent Redirect"));
    lemma_lookup_increasing(t, 20);
    assert(t[21] == (400usize, "Bad Request"));
    lemma_lookup_increasing(t, 21);
    assert(t[22] == (401usize, "Unauthorized"));
    lemma_lookup_increasing(t, 22);
    assert(t[23] == (402usize, "Payment Required"));
    lemma_lookup_increasing(t, 23);
    assert(t[24] == (403usize, "Forbidden"));
    lemma_lookup_increasing(t, 24);
    assert(t[25] == (404usize, "Not Found"));
    lemma_lookup_increasing(t, 25);
    assert(t[26] == (405usize, "Method Not Allowed"));
    lemma_lookup_increasing(t, 26);
    assert(t[27] == (406usize, "Not Acceptable"));
    lemma_lookup_increasing(t, 27);
    assert(t[28] == (407usize, "Proxy Authentication Required"));
    lemma_lookup_increasing(t, 28);
    assert(t[29] == (408usize, "Request Timeout"));
    lemma_lookup_increasing(t, 29);
    assert(t[30] == (409usize, "Conflict"));
    lemma_lookup_increasing(t, 30);
    assert(t[31] == (410usize, "Gone"));
    lemma_lookup_increasing(t, 31);
    assert(t[32] == (411usize, "Length Required"));
    lemma_lookup_increasing(t, 32);
    assert(t[33] == (412usize, "Precondition Failed"));
    lemma_lookup_increasing(t, 33);
    assert(t[34] == (413usize, "Content Too Large"));
    lemma_lookup_increasing(t, 34);
    assert(t[35] == (414usize, "URI Too Long"));
    lemma_lookup_increasing(t, 35);
    assert(t[36] == (415usize, "Unsupported Media Type"));
    lemma_lookup_increasing(t, 36);
    assert(t[37] == (416usize, "Range Not Satisfiable"));
    lemma_lookup_increasing(t, 37);
    assert(t[38] == (417usize, "Expectation Failed"));
    lemma_lookup_increasing(t, 38);
    assert(t[39] == (421usize, "Misdirected Request"));
    lemma_lookup_increasing(t, 39);
    assert(t[40] == (422usize, "Unprocessable Content"));
    lemma_lookup_increasing(t, 40);
    assert(t[41] == (423usize, "Locked"));
    lemma_lookup_increasing(t, 41);
    assert(t[42] == (424usize, "Failed Dependency"));
    lemma_lookup_increasing(t, 42);
    assert(t[43] == (425usize, "Too Early"));
    lemma_lookup_increasing(t, 43);
    assert(t[44] == (426usize, "Upgrade Required"));
    lemma_lookup_increasing(t, 44);
    assert(t[45] == (428usize, "Precondition Required"));
    lemma_lookup_increasing(t, 45);
    assert(t[46] == (429usize, "Too Many Requests"));
    lemma_lookup_increasing(t, 46);
    assert(t[47] == (431usize, "Request Header Fields Too Large"));
    lemma_lookup_increasing(t, 47);
    assert(t[48] == (451usize, "Unavailable for Legal Reasons"));
    lemma_lookup_increasing(t, 48);
    assert(t[49] == (500usize, "Internal Server Error"));
    lemma_lookup_increasing(t, 49);
    assert(t[50] == (501usize, "Not Implemented"));
    lemma_lookup_increasing(t, 50);
    assert(t[51] == (502usize, "Bad Gateway"));
    lemma_lookup_increasing(t, 51);
    assert(t[52] == (503usize, "Service Unavailable"));
    lemma_lookup_increasing(t, 52);
    assert(t[53] == (504usize, "Gateway Timeout"));
    lemma_lookup_increasing(t, 53);
    assert(t[54] == (505usize, "HTTP Version Not Supported"));
    lemma_lookup_increasing(t, 54);
    assert(t[55] == (506usize, "Variant Also Negotiates"));
    lemma_lookup_increasing(t, 55);
    assert(t[56] == (507usize, "Insufficient Storage"));
    lemma_lookup_increasing(t, 56);
    assert(t[57] == (508usize, "Loop Detected"));
    lemma_lookup_increasing(t, 57);
    assert(t[58] == (511usize, "Network Authentication Required"));
    lemma_lookup_increasing(t, 58);
}

} // verus!
