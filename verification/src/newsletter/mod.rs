//! Newsletter subscribers: import from other services, sending and the
//! approval workflow.

pub mod api;
pub mod approval;
pub mod base64;
pub mod composer;
pub mod database;
pub mod fetcher;
pub mod migration;
pub mod plugin;
pub mod sender;
