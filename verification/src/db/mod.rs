//! Database-side decisions that do not touch the database.

pub mod migrations;
