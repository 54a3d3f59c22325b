//! Playback control plane of a terminal music player: the command vocabulary,
//! the orchestrator state machine, the snapshot published to desktop media
//! controls, and the staged background library load.

pub mod app;
pub mod mpris_handler;
pub mod player;
pub mod loader;
pub mod text;
pub mod ui;
pub mod search;
pub mod theme;
pub mod config;
pub mod subsonic;
