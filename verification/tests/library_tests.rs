use micro_http::server::configurable::Configurable;
use micro_http::server::static_dir::{apply_dir_steps, check_static_dir, static_dir_steps, PathStep};
use micro_http::server::server::HandlerResult;
use micro_http::server::stopped_server::StoppedServer;
use micro_http::types::custom_abstractions::capacity_array::CapacityArray;
use micro_http::types::custom_abstractions::exit_status::ExitReason;
use micro_http::types::custom_abstractions::file_type::FileType;
use micro_http::types::custom_abstractions::handler_func_type::HandlerFuncType;
use micro_http::types::custom_abstractions::handler_map::HandlerMap;
use micro_http::types::custom_abstractions::shareable_data::{ShareableData, UnroutedAction};
use micro_http::types::custom_abstractions::static_file::StaticFile;
use micro_http::types::custom_abstractions::valid_responses::ValidResponse;
use micro_http::types::error_types::internal_server_error::InternalServerError;
use micro_http::types::http_types::headers::Headers;
use micro_http::types::http_types::http_request_type::HttpRequest;
use micro_http::types::http_types::http_response_type::HttpResponse;
use micro_http::utils::http_status_codes::HttpStatusCodes;
use micro_http::utils::https_methods::HttpMethods;
use micro_http::utils::text::{decimal_string, split_str};
use micro_http::FrameWork;

type Handler = fn(&mut HttpRequest, &mut HttpResponse) -> HandlerResult;

fn noop(_req: &mut HttpRequest, _res: &mut HttpResponse) -> HandlerResult {
    Ok(())
}

fn other(_req: &mut HttpRequest, _res: &mut HttpResponse) -> HandlerResult {
    Ok(())
}

#[test]
fn interpret_ignores_case() {
    assert_eq!(HttpMethods::interpret("get").unwrap(), HttpMethods::GET);
    assert_eq!(HttpMethods::interpret("Post").unwrap(), HttpMethods::POST);
    assert_eq!(HttpMethods::interpret("delete").unwrap(), HttpMethods::DELETE);
    assert_eq!(HttpMethods::interpret("PUT").unwrap(), HttpMethods::PUT);
    assert_eq!(HttpMethods::interpret("next").unwrap(), HttpMethods::NEXT);
}

#[test]
fn interpret_rejects_unknown_methods() {
    let e = HttpMethods::interpret("PATCH").unwrap_err();
    assert_eq!(e.identify(), "ConstructError");
    assert_eq!(
        e.to_string(),
        "Failed to Construct type `HttpMethod` fail reason: `invalid http method was given`"
    );
    assert!(HttpMethods::interpret("").is_err());
    assert!(HttpMethods::interpret("GET ").is_err());
}

#[test]
fn method_names_read_back() {
    for m in [
        HttpMethods::GET,
        HttpMethods::POST,
        HttpMethods::DELETE,
        HttpMethods::PUT,
        HttpMethods::NEXT,
    ] {
        assert_eq!(HttpMethods::interpret(&m.to_stirng()).unwrap(), m);
        assert_eq!(HttpMethods::from_uppercase(&m.to_stirng()).unwrap(), m);
    }
    assert_eq!(HttpMethods::DELETE.to_stirng(), "DELETE");
}

#[test]
fn uppercase_follows_unicode() {
    // the long s upper-cases to S, so it names POST
    assert_eq!(HttpMethods::interpret("po\u{17f}t").unwrap(), HttpMethods::POST);
}

#[test]
fn decimal_text() {
    assert_eq!(decimal_string(0), "0");
    assert_eq!(decimal_string(7), "7");
    assert_eq!(decimal_string(7878), "7878");
    assert_eq!(decimal_string(10), "10");
    assert_eq!(decimal_string(usize::MAX), usize::MAX.to_string());
}

#[test]
fn split_matches_std() {
    for (s, sep) in [
        ("a\r\n\r\nb\r\n\r\n", "\r\n\r\n"),
        ("GET / HTTP/1.1", " "),
        ("", " "),
        ("no separator", "--"),
        ("x  y", " "),
        ("aaa", "aa"),
    ] {
        let ours: Vec<&str> = split_str(s, sep);
        let theirs: Vec<&str> = s.split(sep).collect();
        assert_eq!(ours, theirs);
    }
}

#[test]
fn status_codes_lookup() {
    assert!(HttpStatusCodes::new().has(200));
    assert!(HttpStatusCodes::new().has(511));
    assert!(!HttpStatusCodes::new().has(299));
    assert_eq!(HttpStatusCodes::new().get(404), Ok((404, "Not Found")));
    assert_eq!(HttpStatusCodes::new().get(100), Ok((100, "Continue")));
    assert_eq!(
        HttpStatusCodes::new().get(999),
        Err("invalid status code was given".to_string())
    );
    for code in 0..700 {
        assert_eq!(HttpStatusCodes::new().has(code), HttpStatusCodes::new().get(code).is_ok());
    }
}

#[test]
fn new_response_defaults() {
    let r = HttpResponse::new();
    assert_eq!(r.status_code, " 404 NOT FOUND");
    assert_eq!(r.version, "HTTP/1.1");
    assert!(matches!(r.body, ValidResponse::String(ref s) if s.is_empty()));
    assert_eq!(r.headers.len(), 0);
}

#[test]
fn status_code_line() {
    let mut r = HttpResponse::new();
    r.set_status_code(200).unwrap();
    assert_eq!(r.status_code, " 200 OK");
    r.set_status_code(418).map(|_| ()).unwrap_err();
    assert_eq!(r.status_code, " 200 OK");
    let e = r.set_status_code(999).map(|_| ()).unwrap_err();
    assert_eq!(e.to_string(), "Failed to parse `999: status code is not supported`");
}

#[test]
fn text_body_sets_length_in_bytes() {
    let mut r = HttpResponse::new();
    r.text_to_body("h\u{e9}llo".to_string()).unwrap();
    assert_eq!(r.headers.get("Content-Length").unwrap(), "6");
    assert_eq!(r.headers.get("Content-Type").unwrap(), "text/html; charset=utf-8");
    assert!(matches!(r.body, ValidResponse::String(ref s) if s == "h\u{e9}llo"));
    let e = r.text_to_body(String::new()).map(|_| ()).unwrap_err();
    assert_eq!(e.identify(), "EmptyInputError");
    assert_eq!(r.headers.get("Content-Length").unwrap(), "6");
}

#[test]
fn json_body_must_be_braced() {
    let mut r = HttpResponse::new();
    r.json_to_body("{\"a\": 1}".to_string()).unwrap();
    assert_eq!(r.headers.get("Content-Type").unwrap(), "application/json");
    assert_eq!(r.headers.get("Content-Length").unwrap(), "8");
    for bad in ["", "{", "}", "[1]", "{\"a\": 1} "] {
        let e = r.json_to_body(bad.to_string()).map(|_| ()).unwrap_err();
        assert_eq!(e.identify(), "ParseError");
    }
    assert_eq!(r.headers.get("Content-Length").unwrap(), "8");
}

#[test]
fn headers_replace_values_in_place() {
    let mut r = HttpResponse::new();
    r.add_header("A".to_string(), "1".to_string()).unwrap();
    r.add_header("B".to_string(), "2".to_string()).unwrap();
    r.add_header("A".to_string(), "3".to_string()).unwrap();
    assert_eq!(r.headers.len(), 2);
    assert_eq!(r.headers.get("A").unwrap(), "3");
    assert_eq!(r.headers.entry(0), (&"A".to_string(), &"3".to_string()));
    assert!(r.headers.contains_key("B"));
    assert!(!r.headers.contains_key("C"));
    let e = r.add_header(String::new(), "x".to_string()).map(|_| ()).unwrap_err();
    assert_eq!(e.to_string(), "empty data given to `can not add empty strings to headers`");
    let mut h = Headers::new();
    h.insert("k".to_string(), "v".to_string());
    assert_eq!(h.get("k").unwrap(), "v");
}

#[test]
fn raw_body_needs_content_type() {
    let mut r = HttpResponse::new();
    let e = r.set_body_raw(vec![1, 2, 3], FileType::PNG).map(|_| ()).unwrap_err();
    assert_eq!(e.identify(), "ConstructError");
    r.add_header("Content-Type".to_string(), "image/png".to_string()).unwrap();
    r.set_body_raw(vec![1, 2, 3], FileType::PNG).unwrap();
    assert!(matches!(r.body, ValidResponse::Vec(ref v) if v == &vec![1, 2, 3]));
    assert_eq!(r.headers.get("Content-Length").unwrap(), "3");
    r.set_body_raw("ok\u{e9}".as_bytes().to_vec(), FileType::HTML).unwrap();
    assert!(matches!(r.body, ValidResponse::String(ref s) if s == "ok\u{e9}"));
    assert_eq!(r.headers.get("Content-Length").unwrap(), "4");
}

#[test]
fn static_file_response() {
    let mut r = HttpResponse::new();
    r.attach_static_file(b"<p>x</p>".to_vec(), FileType::HTML).unwrap();
    assert_eq!(r.status_code, " 200 OK");
    assert_eq!(r.headers.get("Content-Type").unwrap(), "text/html");
    assert_eq!(r.headers.get("Content-Length").unwrap(), "8");
    let mut r = HttpResponse::new();
    r.attach_static_file(vec![0xff, 0x00], FileType::JPG).unwrap();
    assert_eq!(r.headers.get("Content-Type").unwrap(), "image/jpg");
    assert!(matches!(r.body, ValidResponse::Vec(_)));
}

#[test]
fn final_response_text() {
    let mut r = HttpResponse::new();
    r.set_status_code(200).unwrap().text_to_body("hi".to_string()).unwrap();
    let bytes = HttpResponse::build_final_response(r).unwrap();
    assert_eq!(
        String::from_utf8(bytes).unwrap(),
        "HTTP/1.1 200 OK\r\nContent-Type:text/html; charset=utf-8\r\nContent-Length:2\r\n\r\nhi\r\n\r\n"
    );
}

#[test]
fn final_response_bytes() {
    let mut r = HttpResponse::new();
    r.add_header("Content-Type".to_string(), "image/png".to_string()).unwrap();
    r.set_body_raw(vec![0xff, 0xfe], FileType::PNG).unwrap();
    let bytes = HttpResponse::build_final_response(r).unwrap();
    let mut expected =
        b"HTTP/1.1 404 NOT FOUND\r\nContent-Type:image/png\r\nContent-Length:2\r\n\r\n".to_vec();
    expected.extend_from_slice(&[0xff, 0xfe]);
    expected.extend_from_slice(b"\r\n\r\n");
    assert_eq!(bytes, expected);
}

#[test]
fn not_found_response() {
    let mut r = HttpResponse::new();
    r.not_found("/missing").unwrap();
    assert_eq!(r.status_code, " 404 Not Found");
    assert!(matches!(r.body, ValidResponse::String(ref s) if s == "no handler for `/missing` uri"));
}

#[test]
fn file_contents_body() {
    assert_eq!(HttpResponse::check_body_path("").unwrap_err().identify(), "ConstructError");
    assert!(HttpResponse::check_body_path("a.html").is_ok());
    let mut r = HttpResponse::new();
    assert_eq!(r.contents_to_body(None).map(|_| ()).unwrap_err().identify(), "ParseError");
    r.contents_to_body(Some(String::new())).unwrap();
    assert_eq!(r.headers.len(), 0);
    r.contents_to_body(Some("abc".to_string())).unwrap();
    assert_eq!(r.headers.get("Content-Length").unwrap(), "3");
}

#[test]
fn parse_full_request() {
    let raw = "GET /hello HTTP/1.1\r\nHost: x\r\nAccept: y\r\n\r\nthe body".to_string();
    assert!(HttpRequest::request_line_is_complete(&raw));
    let req = HttpRequest::from_raw_request(raw.clone()).unwrap();
    assert_eq!(req.method, HttpMethods::GET);
    assert_eq!(req.uri, "/hello");
    assert_eq!(req.version, "1.1");
    assert_eq!(req.headers, vec!["Host: x".to_string(), "Accept: y".to_string()]);
    assert_eq!(req.body, "the body");
    assert_eq!(req.raw_request_string, raw);
}

#[test]
fn parse_request_edge_cases() {
    let req = HttpRequest::from_raw_request("post /a HTTP/2\r\n\r\n".to_string()).unwrap();
    assert_eq!(req.method, HttpMethods::POST);
    assert_eq!(req.version, "2");
    assert_eq!(req.body, "");
    assert!(req.headers.is_empty());
    // without a blank line the only section is also the last one
    let req = HttpRequest::from_raw_request("PUT /b VERSION".to_string()).unwrap();
    assert_eq!(req.version, "1.1");
    assert_eq!(req.body, "PUT /b VERSION");
    let e = HttpRequest::from_raw_request("FETCH /c HTTP/1.1\r\n\r\n".to_string()).unwrap_err();
    assert_eq!(e.identify(), "ConstructError");
    assert!(!HttpRequest::request_line_is_complete("GET /only"));
    let e = HttpRequest::build_http_request(vec![]).unwrap_err();
    assert_eq!(e.to_string(), "Server Failure : error `no request line was parsed`");
    let req = HttpRequest::build_http_request(vec!["DELETE /x HTTP/1.0", "mid", "end"]).unwrap();
    assert_eq!(req.body, "end");
    assert_eq!(req.version, "1.0");
    assert_eq!(req.raw_request_string, "");
}

#[test]
fn config_defaults_and_setters() {
    let mut c: Configurable<Handler> = FrameWork::new_config();
    assert_eq!(c.expose_host(), "localhost");
    assert_eq!(c.expose_port(), "7878");
    assert_eq!(c.middleware_limit(), 5);
    assert_eq!(c.debug_file_path(), "./debug_file.txt");
    assert!(!c.is_debug_mode() && !c.uses_default_404() && !c.uses_default_handler());
    c.set_port(80);
    assert_eq!(c.expose_port(), "7878");
    c.set_port(49152);
    assert_eq!(c.expose_port(), "7878");
    c.set_port(1024).set_host("a");
    assert_eq!(c.expose_port(), "1024");
    assert_eq!(c.expose_host(), "127.0.0.1");
    c.set_host("example.com");
    assert_eq!(c.expose_host(), "example.com");
    c.set_host("\u{e9}");
    assert_eq!(c.expose_host(), "\u{e9}");
    assert_eq!(c.bind_address(), "\u{e9}:1024");
    c.set_default_handler(noop).enable_debug_mode().use_default_404_handler();
    assert!(c.is_debug_mode() && c.uses_default_404() && c.uses_default_handler());
    assert!(c.default_handler().is_some());
    c.set_deubug_file_path("./other.txt").set_middleware_limit(2);
    assert_eq!(c.debug_file_path(), "./other.txt");
    assert_eq!(c.middleware_limit(), 2);
}

#[test]
fn capacity_array_limit() {
    let mut a: CapacityArray<u8> = CapacityArray::new(Some(1));
    for i in 0..5 {
        assert!(a.add_element(i).is_ok());
    }
    let e = a.add_element(9).unwrap_err();
    assert_eq!(e.to_string(), "Failed to append to `CapcityArray`, reason: max capacity has been reached");
    assert_eq!(a.len(), 5);
    assert_eq!(a.expose(), &[0, 1, 2, 3, 4]);
    assert_eq!(a.get(&3), Some(&3));
    assert_eq!(a.get(&7), None);
    let b: CapacityArray<u8> = CapacityArray::new(None).populate(vec![1, 2, 3, 4, 5, 6, 7]);
    assert_eq!(b.expose(), &[1, 2, 3, 4, 5]);
    assert_eq!(b.duplicate().expose(), b.expose());
}

#[test]
fn handler_entries_compare_by_method() {
    let a = HandlerFuncType::new("get", noop as Handler).unwrap();
    let b = HandlerFuncType::new("GET", other as Handler).unwrap();
    let c = HandlerFuncType::new("PUT", noop as Handler).unwrap();
    assert!(a == b);
    assert!(a != c);
    assert!(HandlerFuncType::new("nope", noop as Handler).is_err());
}

#[test]
fn handler_map_reads_back_writes() {
    let mut m: HandlerMap<Handler> = HandlerMap::new();
    let e = m.add_handler("/a", "GET", noop).unwrap_err();
    assert_eq!(e.identify(), "FatalError");
    let e = m.attempt_register_route("/a", 3).unwrap_err();
    assert_eq!(e.identify(), "ConstructError");
    assert!(!m.route_exists("/a"));
    m.attempt_register_route("/a", 4).unwrap();
    assert!(m.route_exists("/a"));
    assert!(m.as_slice("/a").unwrap().is_empty());
    m.add_handler("/a", "put", other).unwrap();
    let f = m.get("/a", HttpMethods::PUT).unwrap();
    assert_eq!(f.method, HttpMethods::PUT);
    assert!(m.get("/a", HttpMethods::GET).is_none());
    assert!(m.get("/b", HttpMethods::PUT).is_none());
    // a lower-case `next` passes the `NEXT` check and names the NEXT method
    m.add_handler("/a", "next", noop).unwrap();
    assert_eq!(m.get("/a", HttpMethods::NEXT).unwrap().method, HttpMethods::NEXT);
    let e = m.add_handler("/a", "PUT", noop).unwrap_err();
    assert_eq!(e.identify(), "RedundentDataError");
    assert!(e.to_string().contains("HandlerFuncType"));
    assert!(e.to_string().ends_with("is already registered in `capacity array`"));
}

#[test]
fn middlewares_keep_their_order() {
    let mut m: HandlerMap<u8> = HandlerMap::new();
    m.attempt_register_route("/m", 5).unwrap();
    for i in 0..3u8 {
        m.register_middlerware_handler("/m", i, 3).unwrap();
    }
    let e = m.register_middlerware_handler("/m", 9, 3).unwrap_err();
    assert_eq!(e.to_string(), "Failed to append to `middleware to capacity array`, reason: max size of array reached");
    let s = m.as_slice("/m").unwrap();
    assert_eq!(s.iter().map(|f| f.handler).collect::<Vec<_>>(), vec![0, 1, 2]);
    assert!(s.iter().all(|f| f.method == HttpMethods::NEXT));
    // a limit above the default of five is honoured
    let mut m: HandlerMap<u8> = HandlerMap::new();
    m.attempt_register_route("/m", 5).unwrap();
    for i in 0..9u8 {
        m.register_middlerware_handler("/m", i, 9).unwrap();
    }
    let e = m.register_middlerware_handler("/m", 9, 9).unwrap_err();
    assert_eq!(e.to_string(), "Failed to append to `middleware to capacity array`, reason: max size of array reached");
    assert_eq!(m.as_slice("/m").unwrap().len(), 9);
}

#[test]
fn configured_middleware_limit_is_honoured() {
    let mut c: Configurable<u8> = FrameWork::new_config();
    c.set_middleware_limit(7);
    let mut d: ShareableData<u8> = ShareableData::new();
    for i in 0..7u8 {
        assert!(d.add_middleware_handler("/seven", i, c.middleware_limit()).is_ok());
    }
    let e = d.add_middleware_handler("/seven", 7, c.middleware_limit()).unwrap_err();
    assert_eq!(e.identify(), "AppenedDataError");
    let s = d.middlerware_registry.as_slice("/seven").unwrap();
    assert_eq!(s.iter().map(|f| f.handler).collect::<Vec<_>>(), vec![0, 1, 2, 3, 4, 5, 6]);
}

#[test]
fn middleware_errors_are_wrapped() {
    let mut d: ShareableData<u8> = ShareableData::new();
    d.add_middleware_handler("/w", 1, 1).unwrap();
    let e = d.add_middleware_handler("/w", 2, 1).unwrap_err();
    assert_eq!(
        e,
        InternalServerError::AppenedDataError(
            "error when adding middleware to middleware map".to_string(),
            "Failed to append to `middleware to capacity array`, reason: max size of array reached"
                .to_string()
        )
    );
}

#[test]
fn unrouted_requests() {
    let mut d: ShareableData<u8> = ShareableData::new();
    d.add_static_file(StaticFile::new("index.html", b"/srv/index.html".to_vec()));
    d.add_static_file(StaticFile::new("pic.v2.png", b"/srv/pic.v2.png".to_vec()));
    assert!(matches!(d.handle_no_uri("/index", false, false), UnroutedAction::ServeStaticFile(0)));
    assert!(matches!(d.handle_no_uri("/pic", true, true), UnroutedAction::ServeStaticFile(1)));
    assert!(matches!(d.handle_no_uri("/none", true, false), UnroutedAction::RespondNotFound));
    assert!(matches!(d.handle_no_uri("/none", true, true), UnroutedAction::CallDefaultHandler));
    match d.handle_no_uri("/none", false, true) {
        UnroutedAction::Reject(e) => {
            assert_eq!(e.to_string(), "Server Info no handler or staic file found for `/none` uri")
        }
        _ => panic!("expected a rejection"),
    }
}

#[test]
fn static_file_names() {
    let f = StaticFile::new("pic.v2.png", b"/srv/pic.v2.png".to_vec());
    assert_eq!(f.name, "pic");
    assert_eq!(f.kind, FileType::PNG);
    assert_eq!(f.location, b"/srv/pic.v2.png".to_vec());
    assert_eq!(StaticFile::get_file_type("jpeg"), Some(FileType::JPEG));
    assert_eq!(StaticFile::get_file_type("txt"), Some(FileType::TEXT));
    assert_eq!(StaticFile::get_file_type("rs"), Some(FileType::RS));
    assert_eq!(StaticFile::get_file_type("css"), None);
    assert_eq!(FileType::RS.content_type(), "testing `fail`");
    assert!(FileType::TEXT.is_text() && !FileType::JPEG.is_text());
}

#[test]
fn error_messages_and_names() {
    let cases = vec![
        (InternalServerError::FatalError("a".into()), "FatalError", "Server Failure : error `a`"),
        (InternalServerError::ParseError("a".into()), "ParseError", "Failed to parse `a`"),
        (InternalServerError::EmptyInputError("a".into()), "EmptyInputError", "empty data given to `a`"),
        (InternalServerError::EncodeError("a".into()), "EncodeError", "Failed to encode `a`"),
        (
            InternalServerError::RedundentDataError("a".into(), "b".into()),
            "RedundentDataError",
            "`a` is already registered in `b`",
        ),
        (
            InternalServerError::AppenedDataError("a".into(), "b".into()),
            "AppenedDataError",
            "Failed to append to `a`, reason: b",
        ),
        (
            InternalServerError::RetrieveError("a".into(), "b".into()),
            "RetrieveError",
            "Failed to retrieve `a` fail error: `b`",
        ),
        (
            InternalServerError::ConstructError("a".into(), "b".into()),
            "ConstructError",
            "Failed to Construct type `a` fail reason: `b`",
        ),
        (InternalServerError::ServerInfo("a".into()), "ServerInfo", "Server Info a"),
        (
            InternalServerError::HandlerError("a".into(), "b".into(), "c".into()),
            "HandlerError",
            "Error when calling handler,  uri: a, method:b Error: c",
        ),
        (
            InternalServerError::StateChange("a".into(), "b".into()),
            "StateChange",
            "Function `a` changed the state of the type `b`\n",
        ),
    ];
    for (e, name, text) in cases {
        assert_eq!(e.identify(), name);
        assert_eq!(e.to_string(), text);
        assert!(e == e.clone());
    }
    assert!(InternalServerError::ParseError("a".into()) != InternalServerError::ParseError("b".into()));
    assert!(InternalServerError::ParseError("a".into()) != InternalServerError::FatalError("a".into()));
}

#[test]
fn stopped_server_states() {
    let s = StoppedServer::after_kill(true);
    assert_eq!(s.exit_status, ExitReason::UserEnd);
    assert_eq!(s.final_error.identify(), "ServerInfo");
    let s = StoppedServer::after_kill(false);
    assert_eq!(s.exit_status, ExitReason::Unrecoverable);
    assert_eq!(s.final_error.to_string(), "Server Failure : error `failed to kill the server cleanly`");
    let s = StoppedServer::new(ExitReason::FailedStartup, InternalServerError::EncodeError("x".into()));
    assert_eq!(s.exit_status, ExitReason::FailedStartup);
}

#[test]
fn ports_and_hosts_are_normalised() {
    let mut c: Configurable<u8> = FrameWork::new_config();
    for p in [0usize, 80, 1023, 1024, 8080, 49151, 49152, 65535, usize::MAX] {
        c.set_port(p);
        let set: usize = c.expose_port().parse().unwrap();
        assert!((1024..=49151).contains(&set));
        assert!(set == p || set == 7878);
    }
    for h in ["", "x", "localhost", "127.0.0.1", "example.org", "\u{e9}"] {
        c.set_host(h);
        let once = c.expose_host().to_string();
        assert_ne!(once, "localhost");
        assert!(once.len() > 1);
        c.set_host(&once.clone());
        assert_eq!(c.expose_host(), once);
    }
}

#[test]
fn static_dir_paths() {
    assert_eq!(check_static_dir("").unwrap_err().to_string(), "empty data given to `dir in `staic_host` function`");
    assert!(check_static_dir("/test_files").is_ok());
    let steps = static_dir_steps("/test_files/../www");
    assert_eq!(steps.len(), 3);
    assert!(matches!(&steps[0], PathStep::Child(s) if s == "test_files"));
    assert!(matches!(&steps[1], PathStep::Parent));
    assert!(matches!(&steps[2], PathStep::Child(s) if s == "www"));
    let steps = static_dir_steps("a/");
    assert_eq!(steps.len(), 2);
    assert!(matches!(&steps[1], PathStep::Child(s) if s.is_empty()));
}

fn names(v: &[&str]) -> Vec<String> {
    v.iter().map(|s| s.to_string()).collect()
}

#[test]
fn static_dir_resolution() {
    // from `/a/b`, `/../c/d` climbs once and then descends twice
    let got = apply_dir_steps(names(&["a", "b"]), &static_dir_steps("/../c/d")).unwrap();
    assert_eq!(got, names(&["a", "c", "d"]));
    // `..` above the root is refused
    let e = apply_dir_steps(Vec::new(), &static_dir_steps("..")).unwrap_err();
    assert_eq!(e, InternalServerError::ParseError("`StaticDir`, couldn't visit parent dir".to_string()));
    let e = apply_dir_steps(names(&["a"]), &static_dir_steps("../../x")).unwrap_err();
    assert_eq!(e.identify(), "ParseError");
    // empty parts and `.` name the directory itself
    let got = apply_dir_steps(names(&["a"]), &static_dir_steps("./b//c/")).unwrap();
    assert_eq!(got, names(&["a", "b", "c"]));
    let got = apply_dir_steps(names(&["a", "b"]), &static_dir_steps("x/../..")).unwrap();
    assert_eq!(got, names(&["a"]));
}

#[test]
fn request_bytes_are_decoded_then_parsed() {
    let raw = "GET /hello HTTP/1.1\r\nHost: a\r\n\r\nhi";
    let req = HttpRequest::parse_request_bytes(raw.as_bytes().to_vec()).unwrap().unwrap();
    assert_eq!(req.method, HttpMethods::GET);
    assert_eq!(req.uri, "/hello");
    assert_eq!(req.version, "1.1");
    assert_eq!(req.headers, vec!["Host: a".to_string()]);
    assert_eq!(req.body, "hi");
    assert_eq!(req.raw_request_string, raw);
    // text in more than one byte per character is decoded, not copied byte by byte
    let raw = "PUT /caf\u{e9} HTTP/1.0\r\n\r\n\u{2713}";
    let req = HttpRequest::parse_request_bytes(raw.as_bytes().to_vec()).unwrap().unwrap();
    assert_eq!(req.uri, "/caf\u{e9}");
    assert_eq!(req.body, "\u{2713}");
    // bytes that are not UTF-8 are refused
    assert!(HttpRequest::parse_request_bytes(vec![0x47, 0xff, 0xfe]).is_none());
    assert!(HttpRequest::parse_request_bytes(vec![0xc0, 0xaf]).is_none());
    // UTF-8 with an unknown method parses to the method error
    let e = HttpRequest::parse_request_bytes(b"FETCH /c HTTP/1.1\r\n\r\n".to_vec()).unwrap().unwrap_err();
    assert_eq!(e.identify(), "ConstructError");
}

#[test]
fn adding_a_handler_changes_one_lookup() {
    let mut d: ShareableData<Handler> = ShareableData::new();
    d.add_handler("/a", "GET", noop).unwrap();
    d.add_handler("/b", "PUT", noop).unwrap();
    d.add_handler("/a", "post", other).unwrap();
    assert_eq!(d.handler_registry.get("/a", HttpMethods::POST).unwrap().method, HttpMethods::POST);
    assert!(d.handler_registry.get("/a", HttpMethods::GET).unwrap().handler == noop as Handler);
    assert!(d.handler_registry.get("/b", HttpMethods::PUT).unwrap().handler == noop as Handler);
    assert!(d.handler_registry.get("/b", HttpMethods::POST).is_none());
    // a refused call registers the uri but gives it no handler
    assert!(d.add_handler("/c", "FETCH", noop).is_err());
    assert!(d.handler_registry.route_exists("/c"));
    assert!(d.handler_registry.get("/c", HttpMethods::GET).is_none());
    assert!(d.add_handler("/a", "GET", other).is_err());
    assert!(d.handler_registry.get("/a", HttpMethods::GET).unwrap().handler == noop as Handler);
}

#[test]
fn error_equality_is_an_equivalence() {
    let a = InternalServerError::HandlerError("u".into(), "m".into(), "e".into());
    let b = a.clone();
    assert!(a == b && b == a);
    assert_eq!(a.identify(), b.identify());
    let c = InternalServerError::RetrieveError("u".into(), "m".into());
    assert!(a != c && c != a);
    assert!(InternalServerError::ServerInfo("x".into()) == InternalServerError::ServerInfo("x".into()));
}

#[test]
fn file_extensions_follow_path_rules() {
    assert_eq!(StaticFile::file_extension("index.html"), Some("html".to_string()));
    assert_eq!(StaticFile::file_extension("pic.v2.png"), Some("png".to_string()));
    assert_eq!(StaticFile::file_extension("archive.tar."), Some(String::new()));
    assert_eq!(StaticFile::file_extension("README"), None);
    assert_eq!(StaticFile::file_extension(".bashrc"), None);
    assert_eq!(StaticFile::file_extension(".."), None);
    assert_eq!(StaticFile::file_extension(".hidden.txt"), Some("txt".to_string()));
    let f = StaticFile::new("caf\u{e9}.jpeg", b"/srv/caf\xc3\xa9.jpeg".to_vec());
    assert_eq!(f.name, "caf\u{e9}");
    assert_eq!(f.kind, FileType::JPEG);
    let f = StaticFile::new("notes.md.txt", b"/n".to_vec());
    assert_eq!(f.name, "notes");
    assert_eq!(f.kind, FileType::TEXT);
}

#[test]
fn dispatch_runs_middlewares_then_the_handler() {
    let mut d: ShareableData<u8> = ShareableData::new();
    let (mids, handler) = d.dispatch_plan("/a", HttpMethods::GET);
    assert!(mids.is_empty() && handler.is_none());
    d.add_middleware_handler("/a", 1, 5).unwrap();
    d.add_middleware_handler("/b", 9, 5).unwrap();
    d.add_middleware_handler("/a", 2, 5).unwrap();
    d.add_handler("/a", "GET", 7).unwrap();
    d.add_handler("/a", "POST", 8).unwrap();
    assert_eq!(d.dispatch_plan("/a", HttpMethods::GET), (vec![1, 2], Some(7)));
    assert_eq!(d.dispatch_plan("/a", HttpMethods::POST), (vec![1, 2], Some(8)));
    // middlewares run whatever the method; no handler means an unrouted request
    assert_eq!(d.dispatch_plan("/a", HttpMethods::PUT), (vec![1, 2], None));
    assert_eq!(d.dispatch_plan("/b", HttpMethods::GET), (vec![9], None));
    assert_eq!(d.dispatch_plan("/c", HttpMethods::GET), (vec![], None));
}

#[test]
fn handler_failures_are_reported() {
    let cause = InternalServerError::ParseError("x".to_string());
    let e = InternalServerError::handler_failure("/a", HttpMethods::POST, &cause);
    assert_eq!(
        e,
        InternalServerError::HandlerError("/a".to_string(), "POST".to_string(), "Failed to parse `x`".to_string())
    );
    assert_eq!(e.identify(), "HandlerError");
}
