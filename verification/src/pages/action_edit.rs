//! Action Edit page: create and edit forms, selection, and association
//! targets.

use vstd::prelude::*;
use crate::models::action::{ActionRow, ActionType, NamedId};
use crate::text::{has_content, str_eq, trimmed};

verus! {

/// Which entity type an action is being associated with.
#[derive(Debug, Clone, Copy, PartialEq, Eq, Hash, Structural)]
pub enum OwnerKind {
    Unit,
    Item,
    Level,
}

impl Default for OwnerKind {
    fn default() -> (k: OwnerKind)
        ensures
            k == OwnerKind::Unit,
    {
        OwnerKind::Unit
    }
}

impl OwnerKind {
    /// The display text of a variant (also its table name).
    pub open spec fn text(self) -> Seq<char> {
        match self {
            OwnerKind::Unit => "Unit"@,
            OwnerKind::Item => "Item"@,
            OwnerKind::Level => "Level"@,
        }
    }

    pub fn as_str(self) -> (s: &'static str)
        ensures
            s@ == self.text(),
    {
        match self {
            OwnerKind::Unit => "Unit",
            OwnerKind::Item => "Item",
            OwnerKind::Level => "Level",
        }
    }

    /// The kind whose text is `s`, if any.
    pub open spec fn parse(s: Seq<char>) -> Option<OwnerKind> {
        if s == "Unit"@ {
            Some(OwnerKind::Unit)
        } else if s == "Item"@ {
            Some(OwnerKind::Item)
        } else if s == "Level"@ {
            Some(OwnerKind::Level)
        } else {
            None
        }
    }

    /// Parses the owner kind that an association listing reports; `None`
    /// for an unknown kind.
    pub fn from_str(s: &str) -> (r: Option<OwnerKind>)
        ensures
            r == OwnerKind::parse(s@),
    {
        if str_eq(s, "Unit") {
            Some(OwnerKind::Unit)
        } else if str_eq(s, "Item") {
            Some(OwnerKind::Item)
        } else if str_eq(s, "Level") {
            Some(OwnerKind::Level)
        } else {
            None
        }
    }
}

/// The text of each owner kind is parsed back to that kind, and a text that
/// parses to a kind is that kind's text.
pub proof fn lemma_owner_kind_text_roundtrip(k: OwnerKind, s: Seq<char>)
    ensures
        OwnerKind::parse(k.text()) == Some(k),
        OwnerKind::parse(s) == Some(k) ==> s == k.text(),
{
    reveal_strlit("Unit");
    reveal_strlit("Item");
    reveal_strlit("Level");
    assert("Unit"@.len() == 4);
    assert("Item"@.len() == 4);
    assert("Level"@.len() == 5);
    assert("Unit"@[0] != "Item"@[0]);
}

/// The query that lists the ids and names of a table, by name then id, for
/// the tables that can own actions.
pub open spec fn named_list_query(table: Seq<char>) -> Option<Seq<char>> {
    if table == "Unit"@ {
        Some("SELECT id, name FROM Unit ORDER BY name ASC, id ASC"@)
    } else if table == "Item"@ {
        Some("SELECT id, name FROM Item ORDER BY name ASC, id ASC"@)
    } else if table == "Level"@ {
        Some("SELECT id, name FROM Level ORDER BY name ASC, id ASC"@)
    } else {
        None
    }
}

/// The id/name listing query of an owner table; `None` for any other table
/// (only known tables are ever queried).
pub fn named_list_sql(table: &str) -> (sql: Option<&'static str>)
    ensures
        match sql {
            Some(q) => named_list_query(table@) == Some(q@),
            None => named_list_query(table@) is None,
        },
        sql is Some <==> (table@ == "Unit"@ || table@ == "Item"@ || table@ == "Level"@),
        sql matches Some(q) ==> q@ == "SELECT id, name FROM "@ + table@ + " ORDER BY name ASC, id ASC"@,
{
    proof {
        lemma_named_list_query_reads_table(table@);
    }
    if str_eq(table, "Unit") {
        Some("SELECT id, name FROM Unit ORDER BY name ASC, id ASC")
    } else if str_eq(table, "Item") {
        Some("SELECT id, name FROM Item ORDER BY name ASC, id ASC")
    } else if str_eq(table, "Level") {
        Some("SELECT id, name FROM Level ORDER BY name ASC, id ASC")
    } else {
        None
    }
}

/// The listing query of an owner table reads that very table, ordered by
/// name then id, and only the tables `Unit`, `Item` and `Level` have one.
pub proof fn lemma_named_list_query_reads_table(table: Seq<char>)
    ensures
        named_list_query(table) is Some <==> (table == "Unit"@ || table == "Item"@ || table == "Level"@),
        named_list_query(table) matches Some(q) ==> q == "SELECT id, name FROM "@ + table
            + " ORDER BY name ASC, id ASC"@,
{
    reveal_strlit("Unit");
    reveal_strlit("Item");
    reveal_strlit("Level");
    reveal_strlit("SELECT id, name FROM ");
    reveal_strlit(" ORDER BY name ASC, id ASC");
    reveal_strlit("SELECT id, name FROM Unit ORDER BY name ASC, id ASC");
    reveal_strlit("SELECT id, name FROM Item ORDER BY name ASC, id ASC");
    reveal_strlit("SELECT id, name FROM Level ORDER BY name ASC, id ASC");
    if table == "Unit"@ {
        assert("SELECT id, name FROM Unit ORDER BY name ASC, id ASC"@ =~= "SELECT id, name FROM "@ + table
            + " ORDER BY name ASC, id ASC"@);
    } else if table == "Item"@ {
        assert("SELECT id, name FROM Item ORDER BY name ASC, id ASC"@ =~= "SELECT id, name FROM "@ + table
            + " ORDER BY name ASC, id ASC"@);
    } else if table == "Level"@ {
        assert("SELECT id, name FROM Level ORDER BY name ASC, id ASC"@ =~= "SELECT id, name FROM "@ + table
            + " ORDER BY name ASC, id ASC"@);
    }
}

/// The index of the first entry of `list` with the given id.
pub open spec fn first_with_id(list: Seq<NamedId>, id: i64) -> Option<int>
    decreases list.len(),
{
    if list.len() == 0 {
        None
    } else if list[0].id == id {
        Some(0)
    } else {
        match first_with_id(list.drop_first(), id) {
            Some(i) => Some(i + 1),
            None => None,
        }
    }
}

/// The label of a dropdown: the name of the selected entry (the first one
/// with the selected id), or `<select>` when nothing listed is selected.
pub open spec fn selection_label(selected: Option<i64>, list: Seq<NamedId>) -> Seq<char> {
    match selected {
        Some(id) => match first_with_id(list, id) {
            Some(i) => list[i].name@,
            None => "<select>"@,
        },
        None => "<select>"@,
    }
}

proof fn lemma_first_with_id(list: Seq<NamedId>, id: i64)
    ensures
        match first_with_id(list, id) {
            Some(i) => 0 <= i < list.len() && list[i].id == id
                && forall|j: int| 0 <= j < i ==> list[j].id != id,
            None => forall|j: int| 0 <= j < list.len() ==> list[j].id != id,
        },
    decreases list.len(),
{
    if list.len() > 0 && list[0].id != id {
        lemma_first_with_id(list.drop_first(), id);
        match first_with_id(list.drop_first(), id) {
            Some(i) => {
                assert forall|j: int| 0 <= j < i + 1 implies list[j].id != id by {
                    if j > 0 {
                        assert(list[j] == list.drop_first()[j - 1]);
                    }
                }
            },
            None => {
                assert forall|j: int| 0 <= j < list.len() implies list[j].id != id by {
                    if j > 0 {
                        assert(list[j] == list.drop_first()[j - 1]);
                    }
                }
            },
        }
    }
}

/// `label` names the selection: when an entry with the selected id is
/// listed, it is the name of the first such entry; otherwise it is
/// `<select>`.
pub open spec fn label_names_selection(selected: Option<i64>, list: Seq<NamedId>, label: Seq<char>) -> bool {
    match selected {
        Some(id) => if exists|j: int| 0 <= j < list.len() && list[j].id == id {
            exists|j: int|
                0 <= j < list.len() && list[j].id == id && label == list[j].name@ && forall|k: int|
                    0 <= k < j ==> list[k].id != id
        } else {
            label == "<select>"@
        },
        None => label == "<select>"@,
    }
}

/// The dropdown label is the name of the first listed entry with the
/// selected id, and `<select>` when no listed entry has it or nothing is
/// selected.
pub proof fn lemma_selection_label_names_selection(selected: Option<i64>, list: Seq<NamedId>)
    ensures
        label_names_selection(selected, list, selection_label(selected, list)),
{
    if let Some(id) = selected {
        lemma_first_with_id(list, id);
        if let Some(i) = first_with_id(list, id) {
            assert(list[i].id == id);
        }
    }
}

/// The label shown for the selected entry of an id/name dropdown.
pub fn selected_name(selected: Option<i64>, list: &Vec<NamedId>) -> (label: String)
    ensures
        label@ == selection_label(selected, list@),
        label_names_selection(selected, list@, label@),
{
    proof {
        lemma_selection_label_names_selection(selected, list@);
    }
    if let Some(id) = selected {
        let mut i: usize = 0;
        while i < list.len()
            invariant
                i <= list.len(),
                selected == Some(id),
                forall|j: int| 0 <= j < i ==> list@[j].id != id,
            decreases list.len() - i,
        {
            if list[i].id == id {
                proof {
                    lemma_first_with_id(list@, id);
                    match first_with_id(list@, id) {
                        Some(k) => {
                            if k < i as int {
                                assert(list@[k].id != id);
                            }
                            if k > i as int {
                                assert(list@[i as int].id != id);
                            }
                        },
                        None => {
                            assert(list@[i as int].id != id);
                        },
                    }
                }
                let label = list[i].name.clone();
                assert(first_with_id(list@, id) == Some(i as int));
                assert(label@ == list@[i as int].name@);
                return label;
            }
            i = i + 1;
        }
        proof {
            lemma_first_with_id(list@, id);
            if let Some(k) = first_with_id(list@, id) {
                assert(list@[k].id != id);
            }
        }
    }
    String::from_str("<select>")
}

/// UI state of the Action Edit page: create form, edit form, association
/// controls, cached lookups and the error line.
pub struct ActionUiState {
    pub new_name: String,
    pub new_stamina_cost: i32,
    pub new_additional_costs: String,
    pub new_action_type: ActionType,
    pub new_rules_description: String,
    pub new_flavor_description: String,

    pub selected_action_id: Option<i64>,
    pub edit_name: String,
    pub edit_stamina_cost: i32,
    pub edit_additional_costs: String,
    pub edit_action_type: ActionType,
    pub edit_rules_description: String,
    pub edit_flavor_description: String,

    pub assoc_owner_kind: OwnerKind,
    pub assoc_owner_id: Option<i64>,

    pub cache_actions: Vec<ActionRow>,
    pub cache_units: Vec<NamedId>,
    pub cache_items: Vec<NamedId>,
    pub cache_levels: Vec<NamedId>,

    pub last_error: Option<String>,
}

impl Default for ActionUiState {
    /// Empty forms, no selection, associations with units, empty caches.
    fn default() -> (s: ActionUiState)
        ensures
            s.new_name@ == Seq::<char>::empty(),
            s.new_stamina_cost == 0,
            s.new_additional_costs@ == Seq::<char>::empty(),
            s.new_action_type == ActionType::Attack,
            s.new_rules_description@ == Seq::<char>::empty(),
            s.new_flavor_description@ == Seq::<char>::empty(),
            s.selected_action_id is None,
            s.edit_name@ == Seq::<char>::empty(),
            s.edit_stamina_cost == 0,
            s.edit_additional_costs@ == Seq::<char>::empty(),
            s.edit_action_type == ActionType::Attack,
            s.edit_rules_description@ == Seq::<char>::empty(),
            s.edit_flavor_description@ == Seq::<char>::empty(),
            s.assoc_owner_kind == OwnerKind::Unit,
            s.assoc_owner_id is None,
            s.cache_actions@.len() == 0,
            s.cache_units@.len() == 0,
            s.cache_items@.len() == 0,
            s.cache_levels@.len() == 0,
            s.last_error is None,
    {
        ActionUiState {
            new_name: String::new(),
            new_stamina_cost: 0,
            new_additional_costs: String::new(),
            new_action_type: ActionType::Attack,
            new_rules_description: String::new(),
            new_flavor_description: String::new(),
            selected_action_id: None,
            edit_name: String::new(),
            edit_stamina_cost: 0,
            edit_additional_costs: String::new(),
            edit_action_type: ActionType::Attack,
            edit_rules_description: String::new(),
            edit_flavor_description: String::new(),
            assoc_owner_kind: OwnerKind::Unit,
            assoc_owner_id: None,
            cache_actions: Vec::new(),
            cache_units: Vec::new(),
            cache_items: Vec::new(),
            cache_levels: Vec::new(),
            last_error: None,
        }
    }
}

impl ActionUiState {
    /// All four lookups are empty: the page has not loaded them yet.
    pub fn caches_empty(&self) -> (b: bool)
        ensures
            b == (self.cache_actions@.len() == 0 && self.cache_units@.len() == 0
                && self.cache_items@.len() == 0 && self.cache_levels@.len() == 0),
    {
        self.cache_actions.len() == 0 && self.cache_units.len() == 0 && self.cache_items.len() == 0
            && self.cache_levels.len() == 0
    }

    /// An action can be created once its name holds something besides white space.
    pub fn can_create(&self) -> (b: bool)
        ensures
            b == (trimmed(self.new_name@).len() > 0),
    {
        has_content(self.new_name.as_str())
    }

    /// The edited action can be saved once its name holds something besides
    /// white space.
    pub fn can_save(&self) -> (b: bool)
        ensures
            b == (trimmed(self.edit_name@).len() > 0),
    {
        has_content(self.edit_name.as_str())
    }

    /// Resets the create form after an action was created.
    pub fn clear_create_form(&mut self)
        ensures
            final(self).new_name@ == Seq::<char>::empty(),
            final(self).new_stamina_cost == 0,
            final(self).new_additional_costs@ == Seq::<char>::empty(),
            final(self).new_action_type == ActionType::Attack,
            final(self).new_rules_description@ == Seq::<char>::empty(),
            final(self).new_flavor_description@ == Seq::<char>::empty(),
            final(self).selected_action_id == old(self).selected_action_id,
            final(self).edit_name == old(self).edit_name,
            final(self).edit_stamina_cost == old(self).edit_stamina_cost,
            final(self).edit_additional_costs == old(self).edit_additional_costs,
            final(self).edit_action_type == old(self).edit_action_type,
            final(self).edit_rules_description == old(self).edit_rules_description,
            final(self).edit_flavor_description == old(self).edit_flavor_description,
            final(self).assoc_owner_kind == old(self).assoc_owner_kind,
            final(self).assoc_owner_id == old(self).assoc_owner_id,
            final(self).cache_actions == old(self).cache_actions,
            final(self).cache_units == old(self).cache_units,
            final(self).cache_items == old(self).cache_items,
            final(self).cache_levels == old(self).cache_levels,
            final(self).last_error == old(self).last_error,
    {
        self.new_name = String::new();
        self.new_stamina_cost = 0;
        self.new_additional_costs = String::new();
        self.new_action_type = ActionType::Attack;
        self.new_rules_description = String::new();
        self.new_flavor_description = String::new();
    }

    /// Selects an action and fills the edit form with its stored fields.
    pub fn select_action(&mut self, row: ActionRow)
        ensures
            final(self).selected_action_id == Some(row.id),
            final(self).edit_name == row.name,
            final(self).edit_stamina_cost == row.stamina_cost,
            final(self).edit_additional_costs == row.additional_costs,
            final(self).edit_action_type == row.action_type,
            final(self).edit_rules_description == row.rules_description,
            final(self).edit_flavor_description == row.flavor_description,
            final(self).new_name == old(self).new_name,
            final(self).new_stamina_cost == old(self).new_stamina_cost,
            final(self).new_additional_costs == old(self).new_additional_costs,
            final(self).new_action_type == old(self).new_action_type,
            final(self).new_rules_description == old(self).new_rules_description,
            final(self).new_flavor_description == old(self).new_flavor_description,
            final(self).assoc_owner_kind == old(self).assoc_owner_kind,
            final(self).assoc_owner_id == old(self).assoc_owner_id,
            final(self).cache_actions == old(self).cache_actions,
            final(self).cache_units == old(self).cache_units,
            final(self).cache_items == old(self).cache_items,
            final(self).cache_levels == old(self).cache_levels,
            final(self).last_error == old(self).last_error,
    {
        self.selected_action_id = Some(row.id);
        self.edit_name = row.name;
        self.edit_stamina_cost = row.stamina_cost;
        self.edit_additional_costs = row.additional_costs;
        self.edit_action_type = row.action_type;
        self.edit_rules_description = row.rules_description;
        self.edit_flavor_description = row.flavor_description;
    }

    /// After action `id` was deleted: the selection is dropped when it was
    /// that action, and kept otherwise.
    pub fn forget_deleted(&mut self, id: i64)
        ensures
            final(self).selected_action_id == (if old(self).selected_action_id == Some(id) {
                None
            } else {
                old(self).selected_action_id
            }),
            final(self).new_name == old(self).new_name,
            final(self).new_stamina_cost == old(self).new_stamina_cost,
            final(self).new_additional_costs == old(self).new_additional_costs,
            final(self).new_action_type == old(self).new_action_type,
            final(self).new_rules_description == old(self).new_rules_description,
            final(self).new_flavor_description == old(self).new_flavor_description,
            final(self).edit_name == old(self).edit_name,
            final(self).edit_stamina_cost == old(self).edit_stamina_cost,
            final(self).edit_additional_costs == old(self).edit_additional_costs,
            final(self).edit_action_type == old(self).edit_action_type,
            final(self).edit_rules_description == old(self).edit_rules_description,
            final(self).edit_flavor_description == old(self).edit_flavor_description,
            final(self).assoc_owner_kind == old(self).assoc_owner_kind,
            final(self).assoc_owner_id == old(self).assoc_owner_id,
            final(self).cache_actions == old(self).cache_actions,
            final(self).cache_units == old(self).cache_units,
            final(self).cache_items == old(self).cache_items,
            final(self).cache_levels == old(self).cache_levels,
            final(self).last_error == old(self).last_error,
    {
        if self.selected_action_id == Some(id) {
            self.selected_action_id = None;
        }
    }

    /// The cached candidates of the selected owner kind.
    pub fn owner_list(&self) -> (list: &Vec<NamedId>)
        ensures
            list == (match self.assoc_owner_kind {
                OwnerKind::Unit => &self.cache_units,
                OwnerKind::Item => &self.cache_items,
                OwnerKind::Level => &self.cache_levels,
            }),
    {
        match self.assoc_owner_kind {
            OwnerKind::Unit => &self.cache_units,
            OwnerKind::Item => &self.cache_items,
            OwnerKind::Level => &self.cache_levels,
        }
    }
}

} // verus!
