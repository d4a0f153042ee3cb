//! Verified core of a static blog generator: text utilities, the post
//! editor, subscriber handling and site configuration.

pub mod commands;
pub mod config;
pub mod content;
pub mod generator;
pub mod text;
pub mod themes;
pub mod time;
pub mod utils;
pub mod tui;
pub mod newsletter;
pub mod project;
