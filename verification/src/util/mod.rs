//! Work that the bot does on its own schedule.

pub mod cleanup;
