pub mod localization;
pub mod config;
pub mod commands;
pub mod troubleshoot;
pub mod chatbot;
pub mod docs;
pub mod status;
pub mod interaction;
pub mod layout;
pub mod panels;
pub mod cards;
pub mod metas;
