pub mod custom_abstractions;
pub mod error_types;
pub mod http_types;
