//! Translation engine that turns an entity schema (named, typed fields, one
//! of them optionally marked as the primary key) into deterministic SQL
//! statement text: table creation, insertion, update, deletion and selection.
//!
//! The engine is pure: every statement is a function of the schema alone.

pub mod laws;
pub mod model;
pub mod parser;
pub mod sql_generator;
pub mod text;
pub mod utils;
