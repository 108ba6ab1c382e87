//! Verified core of the Pixi GUI shell: the values that the window commands
//! compute before anything is shown, spawned or emitted.

pub mod command;
pub mod editor;
pub mod error;
pub mod platform;
pub mod startup;
pub mod tauri_interface;
pub mod utils;
pub mod window;
