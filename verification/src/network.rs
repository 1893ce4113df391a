pub mod client_manager;
pub mod errors;
pub mod setup;
