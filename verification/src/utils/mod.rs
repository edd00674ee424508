//! Descriptions of what a message carries, for the log.

pub mod media_description;
pub mod reply_preview;
pub mod service_action;
