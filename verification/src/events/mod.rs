//! What the bot does when a message is sent or deleted.

pub mod message_delete;
pub mod message_send;
