//! Message-retention rules of a chat bot that deletes the messages of the
//! channels it listens to once they are older than a configured number of
//! days (at most 14).
//!
//! The chat service, the database and the clock are reached by the program
//! around this library, which hands their answers to the functions below and
//! carries out what they decide: what to store, what to delete, and what to
//! answer to each command.

pub mod commands;
pub mod config;
pub mod decimal;
pub mod events;
pub mod reply;
pub mod retention;
pub mod time;
pub mod util;
