//! The slash-command framework: command metadata, the options an interaction
//! carries, replies, errors and the command registry.

pub mod context;
pub mod meta;
pub mod reply;
pub mod result;
pub mod registry;
