//! Data models: the shapes of the rows that the editor reads and writes.

pub mod action;
pub mod level;
pub mod scenario;
pub mod unit;
