use vstd::prelude::*;

verus! {

pub const CARRIAGE_RETURN: &'static str = "\r\n";
pub const DOUBLE_CARRIAGE_RETURN: &'static str = "\r\n\r\n";
pub const DEFAULT_PORT: &'static str = "7878";
pub const DEFAULT_HOST: &'static str = "localhost";
pub const EMPTY_STRING: &'static str = "";
pub const SINGLE_SPACE: &'static str = " ";
pub const MIDDLEWARE_LIMIT: usize = 5;
pub const HANDLER_LIMIT: usize = 4;
pub const DEBUG_FILE_PATH: &'static str = "./debug_file.txt";

// supported static file types
pub const CONTENT_TEXT_HTML: &'static str = "text/html";
pub const CONTENT_PNG: &'static str = "image/png";
pub const CONTENT_JPG: &'static str = "image/jpg";
pub const CONTENT_JPEG: &'static str = "image/jpeg";
pub const CONTENT_RS: &'static str = "testing `fail`";

} // verus!
