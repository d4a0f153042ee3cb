//! The terminal interface: the post editor, the Markdown preview and the
//! state machines behind the screens.

pub mod app;
pub mod config_app;
pub mod editor;
pub mod markdown;
pub mod preview;
pub mod theme;
