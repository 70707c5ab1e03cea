//! Page state of the editor, and the decisions each page takes on it.
//! Drawing and database access stand outside the library; these modules hold
//! what the pages compute.

pub mod action_edit;
pub mod level_edit;
pub mod scenario_edit;
pub mod simulation;
pub mod unit_edit;
