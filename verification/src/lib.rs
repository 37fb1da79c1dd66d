pub mod server;
pub mod types;
pub mod utils;

pub use server::server::FrameWork;
