pub mod call_window;
pub mod enums;
pub mod errors;
pub mod game_action;
pub mod game_state;
pub mod match_manager;
pub mod player;
pub mod wall;
