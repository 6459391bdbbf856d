//! Backend logic of a time-clock kiosk: configuration, the requests sent to a
//! Grist document, and the interpretation of local assets and remote replies.

pub mod assets;
pub mod clock;
pub mod commands;
pub mod config;
pub mod grist;
pub mod text;
