//! Model of a first-time-setup wizard for a game-modding tool: settings
//! persistence, install-directory validation, a step sequence with gated
//! navigation, and the top-level application state machine.

pub mod fts;
pub mod m4;
pub mod m4_settings;
pub mod mod_conf;
pub mod util;
