pub mod capacity_array;
pub mod exit_status;
pub mod file_type;
pub mod handler_func_type;
pub mod handler_map;
pub mod valid_responses;
pub mod shareable_data;
pub mod static_file;
