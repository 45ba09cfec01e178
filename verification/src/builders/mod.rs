//! Builders for Discord message components.
//!
//! Each builder starts from documented defaults, records what its setters are
//! given, and `build` hands back the component of [`component`], the plain data
//! model that the application turns into Discord's wire types.

pub mod component;
pub mod text_display;
pub mod media_gallery;
pub mod select_menu;
pub mod button;
pub mod separator;
pub mod section;
pub mod action_row;
pub mod container;
