//! Core data handling of a save-file editor: an in-memory resource
//! registry, boss flag records filled from the save bytes, and the
//! command vocabulary of the editor's front end.

pub mod resources;
pub mod file;
pub mod bosses;
pub mod commands;
pub mod save;
pub mod json;
pub mod handler;
