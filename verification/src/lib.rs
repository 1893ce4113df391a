//! Core of a four-player tile-game server: wire codec, tile model,
//! match state machine, call-window arbitration, and protocol routing.
//!
//! Everything here is verified; the surrounding process (sockets, timers,
//! serialization of views, the external rule oracle) feeds these functions
//! plain values and carries their results back out.

pub mod game;
pub mod network;
pub mod protocol;
pub mod utils;
