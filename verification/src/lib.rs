//! Remote control for a network speaker that is driven over HTTP.
//!
//! The crate stands between the operator and the speaker's wire protocol:
//! the fixed tables of modes, equalizer presets, loop modes and
//! source names ([`constants`]), the resolvers built on them ([`resolve`]),
//! the decoders for what the speaker reports ([`utils`]), and the commands
//! that put them together ([`commands`]). Nothing here performs a request or
//! prints a line: a command answers with what is to be sent and shown.

pub mod api;
pub mod commands;
pub mod config;
pub mod constants;
pub mod decimal;
pub mod error;
pub mod resolve;
pub mod text;
pub mod utils;
