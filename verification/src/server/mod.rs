pub mod configurable;
pub mod server;
pub mod static_dir;
pub mod stopped_server;
