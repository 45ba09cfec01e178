//! The Orion support bot: component builders, the slash-command framework,
//! the Orion API data model and the bot's own rules, with their contracts.

pub mod text;
pub mod bot;
pub mod builders;
pub mod orion_api;
pub mod framework;
