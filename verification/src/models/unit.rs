//! Unit-related data models.

use vstd::prelude::*;

verus! {

/// A row of the `Unit` table.
#[derive(Debug, Clone, PartialEq, Eq)]
pub struct UnitRow {
    pub id: i64,
    pub name: String,
    pub strength: i32,
    pub agility: i32,
    pub focus: i32,
    pub intelligence: i32,
    pub charisma: i32,
    pub knowledge: i32,
}

impl UnitRow {
    pub fn new(
        id: i64,
        name: String,
        strength: i32,
        agility: i32,
        focus: i32,
        intelligence: i32,
        charisma: i32,
        knowledge: i32,
    ) -> (row: UnitRow)
        ensures
            row.id == id,
            row.name == name,
            row.strength == strength,
            row.agility == agility,
            row.focus == focus,
            row.intelligence == intelligence,
            row.charisma == charisma,
            row.knowledge == knowledge,
    {
        UnitRow { id, name, strength, agility, focus, intelligence, charisma, knowledge }
    }
}

} // verus!
