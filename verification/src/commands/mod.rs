//! What the slash commands decide and answer.

pub mod channels;
pub mod duration;
pub mod ping;
