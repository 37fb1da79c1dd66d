use micro_http::server::configurable::Configurable;
use micro_http::server::server::HandlerResult;
use micro_http::types::custom_abstractions::shareable_data::ShareableData;
use micro_http::types::http_types::http_request_type::HttpRequest;
use micro_http::types::http_types::http_response_type::HttpResponse;
use micro_http::FrameWork;

type Handler = fn(&mut HttpRequest, &mut HttpResponse) -> HandlerResult;

const TESTING_HOST: &str = "127.0.0.1";
const TESTING_PORT: &str = "7178";

/// the configuration and the registries of a basic server for testing purposes
fn init_server() -> (Configurable<Handler>, ShareableData<Handler>) {
    let mut config = FrameWork::new_config::<Handler>();
    config.set_host(TESTING_HOST).set_port(7178);
    config.use_default_404_handler();
    config.enable_debug_mode();
    (config, ShareableData::new())
}

#[test]
fn add_hello_route() {
    let (_config, mut http) = init_server();
    let hello_route_result = http.add_handler(
        "/hello",
        "GET",
        |_req: &mut HttpRequest, res: &mut HttpResponse| -> HandlerResult {
            let _val = res
                .set_status_code(200)?
                .text_to_body(_req.body.to_string())?;
            Ok(())
        },
    );
    assert_eq!(hello_route_result, Ok(()));
}

#[test]
fn add_invalid_method() {
    let (_config, mut http) = init_server();
    let fail = http
        .add_handler(
            "/fail",
            "NEXT",
            |_req: &mut HttpRequest, _res: &mut HttpResponse| -> HandlerResult { Ok(()) },
        )
        .unwrap_err();
    assert_eq!(fail.identify(), "AppenedDataError".to_string());
    let fail = http
        .add_handler(
            "/fail",
            "INVALID",
            |_req: &mut HttpRequest, _res: &mut HttpResponse| -> HandlerResult { Ok(()) },
        )
        .unwrap_err();
    assert_eq!(fail.identify(), "ConstructError".to_string());
}

#[test]
fn add_to_many_handlers() {
    // default limit is 4
    let (_config, mut http) = init_server();
    let _ = http.add_handler(
        "/tomany",
        "GET",
        |_req: &mut HttpRequest, _res: &mut HttpResponse| -> HandlerResult { Ok(()) },
    );
    let _ = http.add_handler(
        "/tomany",
        "PUT",
        |_req: &mut HttpRequest, _res: &mut HttpResponse| -> HandlerResult { Ok(()) },
    );
    let _ = http.add_handler(
        "/tomany",
        "POST",
        |_req: &mut HttpRequest, _res: &mut HttpResponse| -> HandlerResult { Ok(()) },
    );
    let _ = http.add_handler(
        "/tomany",
        "DELETE",
        |_req: &mut HttpRequest, _res: &mut HttpResponse| -> HandlerResult { Ok(()) },
    );
    let fail = http
        .add_handler(
            "/tomany",
            "GET",
            |_req: &mut HttpRequest, _res: &mut HttpResponse| -> HandlerResult { Ok(()) },
        )
        .unwrap_err();
    assert_eq!(fail.identify(), "AppenedDataError".to_string());
}

#[test]
fn add_to_many_middlewares() {
    // default limit is 5
    let (config, mut http) = init_server();
    let limit = config.middleware_limit();
    let _ = http.add_middleware_handler(
        "/tomany",
        |_req: &mut HttpRequest, _res: &mut HttpResponse| -> HandlerResult { Ok(()) },
        limit,
    );
    let _ = http.add_middleware_handler(
        "/tomany",
        |_req: &mut HttpRequest, _res: &mut HttpResponse| -> HandlerResult { Ok(()) },
        limit,
    );
    let _ = http.add_middleware_handler(
        "/tomany",
        |_req: &mut HttpRequest, _res: &mut HttpResponse| -> HandlerResult { Ok(()) },
        limit,
    );
    let _ = http.add_middleware_handler(
        "/tomany",
        |_req: &mut HttpRequest, _res: &mut HttpResponse| -> HandlerResult { Ok(()) },
        limit,
    );
    let _ = http.add_middleware_handler(
        "/tomany",
        |_req: &mut HttpRequest, _res: &mut HttpResponse| -> HandlerResult { Ok(()) },
        limit,
    );
    let fail = http
        .add_middleware_handler(
            "/tomany",
            |_req: &mut HttpRequest, _res: &mut HttpResponse| -> HandlerResult { Ok(()) },
            limit,
        )
        .unwrap_err();
    println!("{:?}", fail);
    assert_eq!(fail.identify(), "AppenedDataError".to_string());
}

#[test]
fn override_middleware_limit() {
    let mut config = FrameWork::new_config::<Handler>();
    config
        .set_host("localhost")
        .set_port(7171)
        .set_middleware_limit(1);
    let mut http = ShareableData::<Handler>::new();
    let _ = http.add_middleware_handler(
        "/tomany",
        |_req: &mut HttpRequest, _res: &mut HttpResponse| -> HandlerResult { Ok(()) },
        config.middleware_limit(),
    );
    let fail = http
        .add_middleware_handler(
            "/tomany",
            |_req: &mut HttpRequest, _res: &mut HttpResponse| -> HandlerResult { Ok(()) },
            config.middleware_limit(),
        )
        .unwrap_err();
    assert_eq!(fail.identify(), "AppenedDataError".to_string());
}

#[test]
fn add_redundent_route() {
    let (_config, mut http) = init_server();
    let _ = http.add_handler(
        "/pred",
        "GET",
        |_req: &mut HttpRequest, _res: &mut HttpResponse| -> HandlerResult { Ok(()) },
    );
    let result = http
        .add_handler(
            "/pred",
            "GET",
            |_req: &mut HttpRequest, _res: &mut HttpResponse| -> HandlerResult { Ok(()) },
        )
        .unwrap_err();
    assert_eq!(result.identify(), "RedundentDataError".to_string());
}

#[test]
fn add_middleware_test() {
    let (config, mut http) = init_server();
    let _ = http.add_middleware_handler(
        "/hello",
        |req: &mut HttpRequest, _res: &mut HttpResponse| -> HandlerResult {
            println!("this is the middleware 2");
            req.body = "THIS THE MIDDLEWARE MODIFYING THE REQUEST 2".to_string();
            Ok(())
        },
        config.middleware_limit(),
    );
}

#[test]
fn apply_middleware() {
    // will add a middleware and make sure the reponse struct returned is correct
    let (config, mut http) = init_server();
    let _ = http.add_middleware_handler(
        "/hello",
        |req: &mut HttpRequest, _res: &mut HttpResponse| -> HandlerResult {
            println!("this is the middleware 2");
            req.body = "THIS THE MIDDLEWARE MODIFYING THE REQUEST 2".to_string();
            Ok(())
        },
        config.middleware_limit(),
    );
}

#[test]
fn apply_handler() {
    // will add a handler and make sure the reponse struct returned is correct
    let (_config, mut http) = init_server();
    let _ = http.add_handler(
        "/hello",
        "GET",
        |_req: &mut HttpRequest, res: &mut HttpResponse| -> HandlerResult {
            let _val = res
                .set_status_code(200)?
                .text_to_body(_req.body.to_string())?;
            Ok(())
        },
    );
}

#[test]
fn apply_custom_config() {
    let mut config = FrameWork::new_config::<Handler>();
    config.set_host("localhost").set_port(7178);

    assert_eq!(config.expose_host(), TESTING_HOST);
    assert_eq!(config.expose_port(), TESTING_PORT);
}
