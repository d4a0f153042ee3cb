//! The decisions behind the command line commands; the commands' input
//! and output happen outside the library.

pub mod config;
pub mod deploy;
pub mod init;
pub mod list;
pub mod theme;
