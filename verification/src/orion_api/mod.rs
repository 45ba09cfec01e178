//! The Orion API: its data model and the rules of its client.

pub mod types;
pub mod client;
