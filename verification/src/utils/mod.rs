pub mod constants;
pub mod https_methods;
pub mod text;
pub mod http_status_codes;
