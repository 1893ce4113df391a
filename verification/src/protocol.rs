pub mod broadcast;
pub mod errors;
pub mod packet;
pub mod protocol;
