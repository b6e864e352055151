//! A store of diet entries, kept in a SQLite database file.
//!
//! Each entry is one meal logged for a family member. The four commands
//! create, list, update and delete entries. Every command opens the database
//! anew, checks what it has to check, and runs a single statement; nothing is
//! kept in memory between two commands.
//!
//! The modules, from the ground up:
//!
//! - [`text`] compares strings and writes integers in decimal;
//! - [`errors`] holds the messages that a failed command hands back;
//! - [`models`] holds the entries, the requests and the filter, and the rules
//!   by which a meal type is read and an update is merged;
//! - [`sql`] builds the statements, text and bound values side by side, and
//!   [`placeholders`] counts the places that the values go to;
//! - [`storage`] makes the calls into the storage engine, and keeps the record
//!   of what has passed;
//! - [`answers`] says what follows from each answer of the engine;
//! - [`protocol`] lays down, for each command, which statements it hands to
//!   the engine and what it returns, as a function of the answers;
//! - [`commands`] holds the four commands themselves;
//! - [`migrations`] holds the schema;
//! - [`greeting`] holds the greeting that the front end asks for first.

pub mod answers;
pub mod commands;
pub mod errors;
pub mod greeting;
pub mod migrations;
pub mod models;
pub mod placeholders;
pub mod protocol;
pub mod sql;
pub mod storage;
pub mod text;

pub use commands::{create_diet_entry, delete_diet_entry, get_diet_entries, update_diet_entry};
pub use greeting::greet;
pub use migrations::get_migrations;
pub use models::{
    CreateDietEntryRequest, DbPath, DietEntry, DietEntryFilter, MealType, UpdateDietEntryRequest,
};
