pub mod capacity_result;
pub mod hashmap_result;
pub mod internal_server_error;
pub mod internal_server_result;
