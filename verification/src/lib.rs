//! Data models and editor logic of the board editor: action, unit, level and
//! scenario rows, the editable hex grid of a scenario, and the decisions that
//! the editor pages take on them.

pub mod db;
pub mod models;
pub mod pages;
pub mod text;
