//! Core logic of a small community chat bot.
//!
//! The bot answers four commands (`ping`, `roll`, `thread`, `age`), loads two
//! secrets at startup, and registers its command set with one community.
//! Everything the bot decides or renders is here, verified; the gateway
//! connection, the HTTP calls and the hosting runtime live outside the
//! library and hand it plain values.

pub mod commands;
pub mod config;
pub mod descriptor;
pub mod reply;
pub mod text;
