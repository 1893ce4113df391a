pub mod errors;
pub mod log_manager;
pub mod models;
