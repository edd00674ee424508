//! Capture and consistent logging of chat events: a write-behind buffer,
//! a lookup resolver that reads unflushed rows before the durable store,
//! and an incremental paginator for the administrative audit feed.

pub mod db;
pub mod handlers;
pub mod resolver;
pub mod schedulers;
pub mod session;
pub mod text;
pub mod utils;
