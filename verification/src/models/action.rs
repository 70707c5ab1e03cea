//! Action-related data models.
//!
//! Actions can be associated with units, items and levels.

use vstd::prelude::*;
use crate::text::str_eq;

verus! {

/// Discrete action categories, stored as TEXT: `Attack`, `Environment`,
/// `Interact`.
#[derive(Debug, Clone, Copy, PartialEq, Eq, Hash, Structural)]
pub enum ActionType {
    Attack,
    Environment,
    Interact,
}

impl ActionType {
    /// The canonical text of a variant.
    pub open spec fn text(self) -> Seq<char> {
        match self {
            ActionType::Attack => "Attack"@,
            ActionType::Environment => "Environment"@,
            ActionType::Interact => "Interact"@,
        }
    }

    /// The variant whose canonical text is `s`, if any.
    pub open spec fn parse(s: Seq<char>) -> Option<ActionType> {
        if s == "Attack"@ {
            Some(ActionType::Attack)
        } else if s == "Environment"@ {
            Some(ActionType::Environment)
        } else if s == "Interact"@ {
            Some(ActionType::Interact)
        } else {
            None
        }
    }

    /// Returns the canonical DB string representation.
    pub fn as_str(self) -> (s: &'static str)
        ensures
            s@ == self.text(),
    {
        match self {
            ActionType::Attack => "Attack",
            ActionType::Environment => "Environment",
            ActionType::Interact => "Interact",
        }
    }

    /// Parses the DB string representation; `None` if it is not recognized.
    pub fn from_str(s: &str) -> (r: Option<ActionType>)
        ensures
            r == ActionType::parse(s@),
    {
        if str_eq(s, "Attack") {
            Some(ActionType::Attack)
        } else if str_eq(s, "Environment") {
            Some(ActionType::Environment)
        } else if str_eq(s, "Interact") {
            Some(ActionType::Interact)
        } else {
            None
        }
    }

    /// Every variant, in declaration order (for populating dropdowns).
    pub fn all() -> (r: &'static [ActionType])
        ensures
            r@ == seq![ActionType::Attack, ActionType::Environment, ActionType::Interact],
    {
        &[ActionType::Attack, ActionType::Environment, ActionType::Interact]
    }
}

impl Default for ActionType {
    fn default() -> (r: ActionType)
        ensures
            r == ActionType::Attack,
    {
        ActionType::Attack
    }
}

/// The canonical text of each variant is parsed back to that variant, and a
/// text that parses to a variant is that variant's canonical text.
pub proof fn lemma_action_type_text_roundtrip(t: ActionType, s: Seq<char>)
    ensures
        ActionType::parse(t.text()) == Some(t),
        ActionType::parse(s) == Some(t) ==> s == t.text(),
{
    reveal_strlit("Attack");
    reveal_strlit("Environment");
    reveal_strlit("Interact");
    assert("Attack"@.len() == 6);
    assert("Environment"@.len() == 11);
    assert("Interact"@.len() == 8);
}

/// Indicates what kind of entity an action is associated with.
#[derive(Debug, Clone, Copy, PartialEq, Eq, Hash, Structural)]
pub enum ActionOwnerKind {
    Unit,
    Item,
    Level,
}

impl ActionOwnerKind {
    /// The display text of a variant.
    pub open spec fn text(self) -> Seq<char> {
        match self {
            ActionOwnerKind::Unit => "Unit"@,
            ActionOwnerKind::Item => "Item"@,
            ActionOwnerKind::Level => "Level"@,
        }
    }

    pub fn as_str(self) -> (s: &'static str)
        ensures
            s@ == self.text(),
    {
        match self {
            ActionOwnerKind::Unit => "Unit",
            ActionOwnerKind::Item => "Item",
            ActionOwnerKind::Level => "Level",
        }
    }
}

/// A row of the `Action` table; `action_type` is stored as TEXT.
#[derive(Debug, Clone, PartialEq, Eq)]
pub struct ActionRow {
    pub id: i64,
    pub name: String,
    pub stamina_cost: i32,
    pub additional_costs: String,
    pub action_type: ActionType,
    pub rules_description: String,
    pub flavor_description: String,
}

impl ActionRow {
    /// Builds a row from the columns of the `Action` table, in table order.
    /// Returns `None` when the stored action type is not a known variant.
    pub fn from_columns(
        id: i64,
        name: String,
        stamina_cost: i32,
        additional_costs: String,
        action_type: &str,
        rules_description: String,
        flavor_description: String,
    ) -> (r: Option<ActionRow>)
        ensures
            r is Some <==> ActionType::parse(action_type@) is Some,
            r matches Some(row) ==> {
                &&& row.id == id
                &&& row.name == name
                &&& row.stamina_cost == stamina_cost
                &&& row.additional_costs == additional_costs
                &&& Some(row.action_type) == ActionType::parse(action_type@)
                &&& row.rules_description == rules_description
                &&& row.flavor_description == flavor_description
            },
    {
        match ActionType::from_str(action_type) {
            Some(t) => Some(ActionRow {
                id,
                name,
                stamina_cost,
                additional_costs,
                action_type: t,
                rules_description,
                flavor_description,
            }),
            None => None,
        }
    }
}

/// A generic association between an action and an owning entity.
#[derive(Debug, Clone, PartialEq, Eq)]
pub struct ActionAssociation {
    pub owner_kind: ActionOwnerKind,
    pub owner_id: i64,
    pub action_id: i64,
}

/// A minimal lookup row (id + name) used by the association pickers.
#[derive(Debug, Clone, PartialEq, Eq)]
pub struct NamedId {
    pub id: i64,
    pub name: String,
}

} // verus!
