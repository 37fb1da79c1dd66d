pub mod headers;
pub mod http_request_type;
pub mod http_response_type;
