//! Reactive form model for a tabletop-RPG character sheet.
//!
//! The crate validates raw text edits to a character's fields, derives
//! strength-dependent combat statistics from a fixed rule table, and
//! republishes a JSON snapshot of the character after every edit.

pub mod common;
pub mod text;
pub mod character_model;
