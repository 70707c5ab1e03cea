//! Level-related data models. Levels have the shape of items but are stored
//! separately, for independent editing and lookup.

use vstd::prelude::*;

verus! {

/// A row of the `Level` table.
#[derive(Debug, Clone, PartialEq, Eq)]
pub struct LevelRow {
    pub id: i64,
    pub name: String,
    pub strength: i32,
    pub agility: i32,
    pub focus: i32,
    pub intelligence: i32,
    pub charisma: i32,
    pub knowledge: i32,
    pub rules_description: String,
    pub flavor_description: String,
}

impl LevelRow {
    #[allow(clippy::too_many_arguments)]
    pub fn new(
        id: i64,
        name: String,
        strength: i32,
        agility: i32,
        focus: i32,
        intelligence: i32,
        charisma: i32,
        knowledge: i32,
        rules_description: String,
        flavor_description: String,
    ) -> (row: LevelRow)
        ensures
            row.id == id,
            row.name == name,
            row.strength == strength,
            row.agility == agility,
            row.focus == focus,
            row.intelligence == intelligence,
            row.charisma == charisma,
            row.knowledge == knowledge,
            row.rules_description == rules_description,
            row.flavor_description == flavor_description,
    {
        LevelRow {
            id,
            name,
            strength,
            agility,
            focus,
            intelligence,
            charisma,
            knowledge,
            rules_description,
            flavor_description,
        }
    }
}

} // verus!
