//! Scenario Edit page: the scenario being edited, its grid, and what clicks
//! and drags on the grid do to them.

use vstd::prelude::*;
use vstd::string::*;
use crate::models::action::NamedId;
use crate::models::scenario::{AxialCoord, EditableGrid, GridView, TileOccupant};
use crate::pages::simulation::LoadedScenario;
use crate::text::{has_content, str_eq, trimmed};

verus! {

/// What a click on a tile does.
#[derive(Debug, Clone, Copy, PartialEq, Eq, Structural)]
pub enum PaintMode {
    Select,
    PlaceUnit,
    PlaceItem,
    Erase,
}

impl PaintMode {
    /// The display text of a mode.
    pub open spec fn text(self) -> Seq<char> {
        match self {
            PaintMode::Select => "Select"@,
            PaintMode::PlaceUnit => "Place Unit"@,
            PaintMode::PlaceItem => "Place Item"@,
            PaintMode::Erase => "Erase"@,
        }
    }

    pub fn as_str(self) -> (s: &'static str)
        ensures
            s@ == self.text(),
    {
        match self {
            PaintMode::Select => "Select",
            PaintMode::PlaceUnit => "Place Unit",
            PaintMode::PlaceItem => "Place Item",
            PaintMode::Erase => "Erase",
        }
    }
}

/// A scenario's id and name, for the load dropdown.
#[derive(Debug, Clone)]
pub struct NamedScenario {
    pub id: i64,
    pub name: String,
}

/// The index of the first scenario of `list` with the given id.
pub open spec fn first_scenario_with_id(list: Seq<NamedScenario>, id: i64) -> Option<int>
    decreases list.len(),
{
    if list.len() == 0 {
        None
    } else if list[0].id == id {
        Some(0)
    } else {
        match first_scenario_with_id(list.drop_first(), id) {
            Some(i) => Some(i + 1),
            None => None,
        }
    }
}

proof fn lemma_first_scenario_with_id(list: Seq<NamedScenario>, id: i64)
    ensures
        match first_scenario_with_id(list, id) {
            Some(i) => 0 <= i < list.len() && list[i].id == id
                && forall|j: int| 0 <= j < i ==> list[j].id != id,
            None => forall|j: int| 0 <= j < list.len() ==> list[j].id != id,
        },
    decreases list.len(),
{
    if list.len() > 0 && list[0].id != id {
        lemma_first_scenario_with_id(list.drop_first(), id);
        assert forall|j: int| 0 < j < list.len() implies list[j] == list.drop_first()[j - 1] by {}
    }
}

/// The label of the scenario dropdown: the name of the selected scenario
/// (the first one listed with the selected id), or `<select>`.
pub open spec fn scenario_selection_label(selected: Option<i64>, list: Seq<NamedScenario>) -> Seq<char> {
    match selected {
        Some(id) => match first_scenario_with_id(list, id) {
            Some(i) => list[i].name@,
            None => "<select>"@,
        },
        None => "<select>"@,
    }
}

/// `label` names the chosen scenario: when a listed scenario has the
/// selected id, it is the name of the first such scenario; otherwise it is
/// `<select>`.
pub open spec fn label_names_scenario(selected: Option<i64>, list: Seq<NamedScenario>, label: Seq<char>) -> bool {
    match selected {
        Some(id) => if exists|j: int| 0 <= j < list.len() && list[j].id == id {
            exists|j: int|
                0 <= j < list.len() && list[j].id == id && label == list[j].name@ && forall|k: int|
                    0 <= k < j ==> list[k].id != id
        } else {
            label == "<select>"@
        },
        None => label == "<select>"@,
    }
}

/// The scenario dropdown's label is the name of the first listed scenario
/// with the selected id, and `<select>` when none is listed or nothing is
/// selected.
pub proof fn lemma_scenario_label_names_selection(selected: Option<i64>, list: Seq<NamedScenario>)
    ensures
        label_names_scenario(selected, list, scenario_selection_label(selected, list)),
{
    if let Some(id) = selected {
        lemma_first_scenario_with_id(list, id);
        if let Some(i) = first_scenario_with_id(list, id) {
            assert(list[i].id == id);
        }
    }
}

/// The label shown for the selected entry of a scenario dropdown.
pub fn selected_scenario_name(selected: Option<i64>, list: &Vec<NamedScenario>) -> (label: String)
    ensures
        label@ == scenario_selection_label(selected, list@),
        label_names_scenario(selected, list@, label@),
{
    proof {
        lemma_scenario_label_names_selection(selected, list@);
    }
    if let Some(id) = selected {
        let mut i: usize = 0;
        while i < list.len()
            invariant
                i <= list.len(),
                selected == Some(id),
                forall|j: int| 0 <= j < i ==> list@[j].id != id,
            decreases list.len() - i,
        {
            if list[i].id == id {
                proof {
                    lemma_first_scenario_with_id(list@, id);
                    if let Some(k) = first_scenario_with_id(list@, id) {
                        if k < i as int {
                            assert(list@[k].id != id);
                        }
                        if k > i as int {
                            assert(list@[i as int].id != id);
                        }
                    }
                }
                let label = list[i].name.clone();
                assert(first_scenario_with_id(list@, id) == Some(i as int));
                assert(label@ == list@[i as int].name@);
                return label;
            }
            i = i + 1;
        }
        proof {
            lemma_first_scenario_with_id(list@, id);
            if let Some(k) = first_scenario_with_id(list@, id) {
                assert(list@[k].id != id);
            }
        }
    }
    String::from_str("<select>")
}

/// The id/name listing query of the tables whose entries can be placed on
/// tiles; `None` for any other table.
pub open spec fn placeable_list_query(table: Seq<char>) -> Option<Seq<char>> {
    if table == "Unit"@ {
        Some("SELECT id, name FROM Unit ORDER BY name ASC, id ASC"@)
    } else if table == "Item"@ {
        Some("SELECT id, name FROM Item ORDER BY name ASC, id ASC"@)
    } else {
        None
    }
}

/// The listing query of a placeable table reads that very table, ordered by
/// name then id, and only the tables `Unit` and `Item` have one.
pub proof fn lemma_placeable_list_query_reads_table(table: Seq<char>)
    ensures
        placeable_list_query(table) is Some <==> (table == "Unit"@ || table == "Item"@),
        placeable_list_query(table) matches Some(q) ==> q == "SELECT id, name FROM "@ + table
            + " ORDER BY name ASC, id ASC"@,
{
    reveal_strlit("Unit");
    reveal_strlit("Item");
    reveal_strlit("SELECT id, name FROM ");
    reveal_strlit(" ORDER BY name ASC, id ASC");
    reveal_strlit("SELECT id, name FROM Unit ORDER BY name ASC, id ASC");
    reveal_strlit("SELECT id, name FROM Item ORDER BY name ASC, id ASC");
    if table == "Unit"@ {
        assert("SELECT id, name FROM Unit ORDER BY name ASC, id ASC"@ =~= "SELECT id, name FROM "@ + table
            + " ORDER BY name ASC, id ASC"@);
    } else if table == "Item"@ {
        assert("SELECT id, name FROM Item ORDER BY name ASC, id ASC"@ =~= "SELECT id, name FROM "@ + table
            + " ORDER BY name ASC, id ASC"@);
    }
}

/// The id/name listing query of a placeable table (`Unit` or `Item`).
pub fn placeable_list_sql(table: &str) -> (sql: Option<&'static str>)
    ensures
        match sql {
            Some(q) => placeable_list_query(table@) == Some(q@),
            None => placeable_list_query(table@) is None,
        },
        sql is Some <==> (table@ == "Unit"@ || table@ == "Item"@),
        sql matches Some(q) ==> q@ == "SELECT id, name FROM "@ + table@ + " ORDER BY name ASC, id ASC"@,
{
    proof {
        lemma_placeable_list_query_reads_table(table@);
    }
    if str_eq(table, "Unit") {
        Some("SELECT id, name FROM Unit ORDER BY name ASC, id ASC")
    } else if str_eq(table, "Item") {
        Some("SELECT id, name FROM Item ORDER BY name ASC, id ASC")
    } else {
        None
    }
}

/// The abstract state of the Scenario Edit page.
pub struct ScenarioEditView {
    pub scenario_id: Option<i64>,
    pub scenario_name: Seq<char>,
    pub scenario_description: Seq<char>,
    pub grid: GridView,
    pub selected_tile: Option<AxialCoord>,
    pub paint_mode: PaintMode,
    pub drag_from_tile: Option<AxialCoord>,
    pub drag_payload: Option<TileOccupant>,
    pub selected_unit_id: Option<i64>,
    pub selected_item_id: Option<i64>,
    pub cache_units: Seq<NamedId>,
    pub cache_items: Seq<NamedId>,
    pub cache_scenarios: Seq<NamedScenario>,
    pub selected_load_scenario_id: Option<i64>,
    pub tile_popup_open: bool,
    pub last_error: Option<Seq<char>>,
    pub last_info: Option<Seq<char>>,
}

pub open spec fn text_of(s: Option<String>) -> Option<Seq<char>> {
    match s {
        Some(t) => Some(t@),
        None => None,
    }
}

/// The side length of the square grid that a new scenario starts with.
pub const SCENARIO_GRID_SIZE: i32 = 21;

impl ScenarioEditView {
    /// The state after a pointer event on tile `hit`: a drag that starts on
    /// an occupied tile picks its occupant up; a drag that stops drops a
    /// picked-up occupant on `hit`, empties the tile it came from and selects
    /// `hit`, whatever the paint mode; otherwise, when nothing is being
    /// dragged, the tile is selected and the paint mode applies to it.
    pub open spec fn pointer(self, hit: AxialCoord, drag_started: bool, drag_stopped: bool) -> ScenarioEditView {
        let s1 = match self.grid.get(hit) {
            Some(Some(occ)) if drag_started => ScenarioEditView {
                drag_from_tile: Some(hit),
                drag_payload: Some(occ),
                tile_popup_open: false,
                ..self
            },
            _ => self,
        };
        let completed_drop = drag_stopped && s1.drag_from_tile is Some && s1.drag_payload is Some;
        let s2 = if drag_stopped {
            let dropped = match (s1.drag_from_tile, s1.drag_payload) {
                (Some(from), Some(payload)) => {
                    let g1 = s1.grid.set(hit, Some(payload));
                    ScenarioEditView {
                        grid: if hit != from { g1.set(from, None) } else { g1 },
                        selected_tile: Some(hit),
                        ..s1
                    }
                },
                _ => s1,
            };
            ScenarioEditView { drag_from_tile: None, drag_payload: None, ..dropped }
        } else {
            s1
        };
        if s2.drag_payload is None && !completed_drop {
            let s3 = ScenarioEditView { selected_tile: Some(hit), ..s2 };
            match s3.paint_mode {
                PaintMode::Select => ScenarioEditView { tile_popup_open: true, ..s3 },
                PaintMode::PlaceUnit => match s3.selected_unit_id {
                    Some(uid) => ScenarioEditView {
                        grid: s3.grid.set(hit, Some(TileOccupant::Unit(uid))),
                        tile_popup_open: true,
                        ..s3
                    },
                    None => ScenarioEditView { last_error: Some("Select a Unit first"@), ..s3 },
                },
                PaintMode::PlaceItem => match s3.selected_item_id {
                    Some(iid) => ScenarioEditView {
                        grid: s3.grid.set(hit, Some(TileOccupant::Item(iid))),
                        tile_popup_open: true,
                        ..s3
                    },
                    None => ScenarioEditView { last_error: Some("Select an Item first"@), ..s3 },
                },
                PaintMode::Erase => ScenarioEditView {
                    grid: s3.grid.set(hit, None),
                    tile_popup_open: false,
                    ..s3
                },
            }
        } else {
            s2
        }
    }
}

/// State of the Scenario Edit page: the scenario's fields, the grid being
/// edited, selections, drag-and-drop state, lookups and feedback lines.
pub struct ScenarioUiState {
    pub scenario_id: Option<i64>,
    pub scenario_name: String,
    pub scenario_description: String,
    pub grid: EditableGrid,
    pub selected_tile: Option<AxialCoord>,
    pub paint_mode: PaintMode,
    pub drag_from_tile: Option<AxialCoord>,
    pub drag_payload: Option<TileOccupant>,
    pub selected_unit_id: Option<i64>,
    pub selected_item_id: Option<i64>,
    pub cache_units: Vec<NamedId>,
    pub cache_items: Vec<NamedId>,
    pub cache_scenarios: Vec<NamedScenario>,
    pub selected_load_scenario_id: Option<i64>,
    pub tile_popup_open: bool,
    pub last_error: Option<String>,
    pub last_info: Option<String>,
}

impl View for ScenarioUiState {
    type V = ScenarioEditView;

    open spec fn view(&self) -> ScenarioEditView {
        ScenarioEditView {
            scenario_id: self.scenario_id,
            scenario_name: self.scenario_name@,
            scenario_description: self.scenario_description@,
            grid: self.grid@,
            selected_tile: self.selected_tile,
            paint_mode: self.paint_mode,
            drag_from_tile: self.drag_from_tile,
            drag_payload: self.drag_payload,
            selected_unit_id: self.selected_unit_id,
            selected_item_id: self.selected_item_id,
            cache_units: self.cache_units@,
            cache_items: self.cache_items@,
            cache_scenarios: self.cache_scenarios@,
            selected_load_scenario_id: self.selected_load_scenario_id,
            tile_popup_open: self.tile_popup_open,
            last_error: text_of(self.last_error),
            last_info: text_of(self.last_info),
        }
    }
}

/// A fresh, unsaved 21 x 21 grid named "21x21".
fn blank_scenario_grid() -> (g: EditableGrid)
    ensures
        g@ == (GridView {
            grid_id: None,
            name: "21x21"@,
            width: 21,
            height: 21,
            cells: Map::empty(),
        }),
{
    let mut g = EditableGrid::new(SCENARIO_GRID_SIZE, SCENARIO_GRID_SIZE);
    g.set_name(String::from_str("21x21"));
    g
}

impl Default for ScenarioUiState {
    /// A new, unsaved scenario on a blank 21 x 21 grid named "21x21", in
    /// Select mode, with nothing selected, dragged or cached.
    fn default() -> (s: ScenarioUiState)
        ensures
            s@ == (ScenarioEditView {
                scenario_id: None,
                scenario_name: Seq::empty(),
                scenario_description: Seq::empty(),
                grid: GridView { grid_id: None, name: "21x21"@, width: 21, height: 21, cells: Map::empty() },
                selected_tile: None,
                paint_mode: PaintMode::Select,
                drag_from_tile: None,
                drag_payload: None,
                selected_unit_id: None,
                selected_item_id: None,
                cache_units: Seq::empty(),
                cache_items: Seq::empty(),
                cache_scenarios: Seq::empty(),
                selected_load_scenario_id: None,
                tile_popup_open: false,
                last_error: None,
                last_info: None,
            }),
    {
        ScenarioUiState {
            scenario_id: None,
            scenario_name: String::new(),
            scenario_description: String::new(),
            grid: blank_scenario_grid(),
            selected_tile: None,
            paint_mode: PaintMode::Select,
            drag_from_tile: None,
            drag_payload: None,
            selected_unit_id: None,
            selected_item_id: None,
            cache_units: Vec::new(),
            cache_items: Vec::new(),
            cache_scenarios: Vec::new(),
            selected_load_scenario_id: None,
            tile_popup_open: false,
            last_error: None,
            last_info: None,
        }
    }
}

impl ScenarioUiState {
    /// The unit, item and scenario lookups are all empty: the page has not
    /// loaded them yet.
    pub fn caches_empty(&self) -> (b: bool)
        ensures
            b == (self@.cache_units.len() == 0 && self@.cache_items.len() == 0
                && self@.cache_scenarios.len() == 0),
    {
        self.cache_units.len() == 0 && self.cache_items.len() == 0 && self.cache_scenarios.len() == 0
    }

    /// A scenario can be saved once its name holds something besides white space.
    pub fn can_save(&self) -> (b: bool)
        ensures
            b == (trimmed(self@.scenario_name).len() > 0),
    {
        has_content(self.scenario_name.as_str())
    }

    /// Starts a new scenario on a blank 21 x 21 grid: the scenario's id, name
    /// and description are cleared, nothing stays selected or dragged, and
    /// the info line says so. Mode, lookups and the error line are kept.
    pub fn new_scenario(&mut self)
        ensures
            final(self)@ == (ScenarioEditView {
                scenario_id: None,
                scenario_name: Seq::empty(),
                scenario_description: Seq::empty(),
                grid: GridView { grid_id: None, name: "21x21"@, width: 21, height: 21, cells: Map::empty() },
                selected_tile: None,
                tile_popup_open: false,
                drag_from_tile: None,
                drag_payload: None,
                last_info: Some("New scenario initialized."@),
                ..old(self)@
            }),
    {
        self.scenario_id = None;
        self.scenario_name = String::new();
        self.scenario_description = String::new();
        self.grid = blank_scenario_grid();
        self.selected_tile = None;
        self.tile_popup_open = false;
        self.drag_from_tile = None;
        self.drag_payload = None;
        self.last_info = Some(String::from_str("New scenario initialized."));
    }

    /// Records the ids under which the scenario and its grid were saved.
    pub fn record_saved(&mut self, scenario_id: i64, grid_id: i64)
        ensures
            final(self)@ == (ScenarioEditView {
                scenario_id: Some(scenario_id),
                grid: GridView { grid_id: Some(grid_id), ..old(self)@.grid },
                ..old(self)@
            }),
    {
        self.scenario_id = Some(scenario_id);
        self.grid.set_grid_id(Some(grid_id));
    }

    /// Replaces the scenario being edited by a loaded one, with no tile
    /// selected.
    pub fn apply_loaded(&mut self, loaded: LoadedScenario)
        ensures
            final(self)@ == (ScenarioEditView {
                scenario_id: Some(loaded.scenario_id),
                scenario_name: loaded.scenario_name@,
                scenario_description: loaded.scenario_description@,
                grid: loaded.grid@,
                selected_tile: None,
                ..old(self)@
            }),
    {
        self.scenario_id = Some(loaded.scenario_id);
        self.scenario_name = loaded.scenario_name;
        self.scenario_description = loaded.scenario_description;
        self.grid = loaded.grid;
        self.selected_tile = None;
    }

    /// Handles a click or drag event on tile `hit` (see
    /// [`ScenarioEditView::pointer`]).
    pub fn apply_pointer(&mut self, hit: AxialCoord, drag_started: bool, drag_stopped: bool)
        ensures
            final(self)@ == old(self)@.pointer(hit, drag_started, drag_stopped),
    {
        if drag_started {
            if let Some(Some(occ)) = self.grid.get(hit) {
                self.drag_from_tile = Some(hit);
                self.drag_payload = Some(occ);
                self.tile_popup_open = false;
            }
        }
        let mut completed_drop = false;
        if drag_stopped {
            if let (Some(from), Some(payload)) = (self.drag_from_tile, self.drag_payload) {
                self.grid.set(hit, Some(payload));
                if hit != from {
                    self.grid.clear(from);
                }
                self.selected_tile = Some(hit);
                completed_drop = true;
            }
            self.drag_from_tile = None;
            self.drag_payload = None;
        }
        if self.drag_payload.is_none() && !completed_drop {
            self.selected_tile = Some(hit);
            match self.paint_mode {
                PaintMode::Select => {
                    self.tile_popup_open = true;
                },
                PaintMode::PlaceUnit => {
                    if let Some(uid) = self.selected_unit_id {
                        self.grid.set(hit, Some(TileOccupant::Unit(uid)));
                        self.tile_popup_open = true;
                    } else {
                        self.last_error = Some(String::from_str("Select a Unit first"));
                    }
                },
                PaintMode::PlaceItem => {
                    if let Some(iid) = self.selected_item_id {
                        self.grid.set(hit, Some(TileOccupant::Item(iid)));
                        self.tile_popup_open = true;
                    } else {
                        self.last_error = Some(String::from_str("Select an Item first"));
                    }
                },
                PaintMode::Erase => {
                    self.grid.clear(hit);
                    self.tile_popup_open = false;
                },
            }
        }
    }

    /// Removes the occupant of `tile` from the scenario and says what was
    /// removed; an empty or outside tile is left as it is.
    pub fn remove_occupant(&mut self, tile: AxialCoord)
        ensures
            final(self)@ == (match old(self)@.grid.get(tile) {
                Some(Some(TileOccupant::Item(_))) => ScenarioEditView {
                    grid: old(self)@.grid.set(tile, None),
                    last_info: Some("Item removed from tile."@),
                    ..old(self)@
                },
                Some(Some(TileOccupant::Unit(_))) => ScenarioEditView {
                    grid: old(self)@.grid.set(tile, None),
                    last_info: Some("Unit removed from tile."@),
                    ..old(self)@
                },
                _ => old(self)@,
            }),
            old(self)@.grid.in_bounds(tile) ==> final(self)@.grid.get(tile) == Some(None::<TileOccupant>),
            forall|other: AxialCoord| other != tile ==> #[trigger] final(self)@.grid.get(other) == old(
                self,
            )@.grid.get(other),
    {
        proof {
            assert forall|other: AxialCoord| other != tile implies #[trigger] old(self)@.grid.set(
                tile,
                None,
            ).get(other) == old(self)@.grid.get(other) by {
                crate::models::scenario::lemma_grid_get_set(old(self)@.grid, tile, None, None, other);
            }
            crate::models::scenario::lemma_grid_get_set(old(self)@.grid, tile, None, None, tile);
        }
        match self.grid.get(tile) {
            Some(Some(TileOccupant::Item(_))) => {
                self.grid.clear(tile);
                self.last_info = Some(String::from_str("Item removed from tile."));
            },
            Some(Some(TileOccupant::Unit(_))) => {
                self.grid.clear(tile);
                self.last_info = Some(String::from_str("Unit removed from tile."));
            },
            _ => {},
        }
    }
}

/// Drag and drop moves an occupant, whatever the paint mode: a drag that
/// starts on an occupied tile picks its occupant up without changing the grid, pointer
/// events while dragging change nothing, and releasing on an in-bounds tile
/// puts the occupant there, empties the tile it came from (when different),
/// leaves every other tile as it was, and ends the drag with the target
/// selected; releasing on the tile it came from leaves the grid as it was.
pub proof fn lemma_drag_moves_occupant(
    s: ScenarioEditView,
    from: AxialCoord,
    over: AxialCoord,
    hit: AxialCoord,
    other: AxialCoord,
)
    requires
        s.drag_payload is None,
        s.grid.occupant(from) is Some,
        s.grid.in_bounds(from),
        s.grid.in_bounds(hit),
    ensures
        ({
            let picked = s.pointer(from, true, false);
            let dropped = picked.pointer(hit, false, true);
            &&& picked.grid == s.grid
            &&& picked.drag_payload == s.grid.occupant(from)
            &&& picked.drag_from_tile == Some(from)
            &&& picked.pointer(over, false, false) == picked
            &&& dropped.grid.get(hit) == Some(s.grid.occupant(from))
            &&& hit != from ==> dropped.grid.get(from) == Some(None::<TileOccupant>)
            &&& (other != hit && other != from) ==> dropped.grid.get(other) == s.grid.get(other)
            &&& dropped.drag_payload is None
            &&& dropped.drag_from_tile is None
            &&& dropped.selected_tile == Some(hit)
            &&& hit == from ==> dropped.grid == s.grid
        }),
{
    let picked = s.pointer(from, true, false);
    let g1 = picked.grid.set(hit, picked.drag_payload);
    crate::models::scenario::lemma_grid_get_set(picked.grid, hit, picked.drag_payload, None, from);
    crate::models::scenario::lemma_grid_get_set(picked.grid, hit, picked.drag_payload, None, other);
    crate::models::scenario::lemma_grid_get_set(g1, from, None, None, hit);
    crate::models::scenario::lemma_grid_get_set(g1, from, None, None, other);
    if hit == from {
        assert(s.grid.cells.insert(from, s.grid.cells[from]) =~= s.grid.cells);
    }
}

/// A click (no drag starting or stopping) while nothing is dragged selects
/// the tile and changes no other tile. In Select mode it only opens the
/// tile's popup and leaves the grid as it was; Place Unit / Place Item put
/// the chosen unit / item on the tile (or, with nothing chosen, leave the grid
/// as it was and report an error); Erase empties the tile.
pub proof fn lemma_click(s: ScenarioEditView, hit: AxialCoord, other: AxialCoord)
    requires
        s.drag_payload is None,
    ensures
        ({
            let t = s.pointer(hit, false, false);
            &&& t.selected_tile == Some(hit)
            &&& t.drag_payload is None
            &&& other != hit ==> t.grid.get(other) == s.grid.get(other)
            &&& t.grid.width == s.grid.width
            &&& t.grid.height == s.grid.height
            &&& s.paint_mode == PaintMode::Select ==> t.grid == s.grid && t.tile_popup_open
                && t.last_error == s.last_error
            &&& (s.paint_mode == PaintMode::PlaceUnit && s.selected_unit_id is Some && s.grid.in_bounds(hit))
                ==> t.grid.get(hit) == Some(Some(TileOccupant::Unit(s.selected_unit_id->0)))
            &&& (s.paint_mode == PaintMode::PlaceUnit && s.selected_unit_id is None) ==> t.grid == s.grid
                && t.last_error is Some
            &&& (s.paint_mode == PaintMode::PlaceItem && s.selected_item_id is Some && s.grid.in_bounds(hit))
                ==> t.grid.get(hit) == Some(Some(TileOccupant::Item(s.selected_item_id->0)))
            &&& (s.paint_mode == PaintMode::PlaceItem && s.selected_item_id is None) ==> t.grid == s.grid
                && t.last_error is Some
            &&& (s.paint_mode == PaintMode::Erase && s.grid.in_bounds(hit)) ==> t.grid.get(hit) == Some(
                None::<TileOccupant>,
            ) && !t.tile_popup_open
        }),
{
    let o = match s.paint_mode {
        PaintMode::PlaceUnit => match s.selected_unit_id {
            Some(u) => Some(TileOccupant::Unit(u)),
            None => None,
        },
        PaintMode::PlaceItem => match s.selected_item_id {
            Some(i) => Some(TileOccupant::Item(i)),
            None => None,
        },
        _ => None,
    };
    crate::models::scenario::lemma_grid_get_set(s.grid, hit, o, o, other);
}

/// In Select mode, with nothing dragged, no pointer event changes the grid:
/// a click only selects, and a drag picked up and dropped on the same tile
/// puts the occupant back where it was.
pub proof fn lemma_select_mode_keeps_grid(s: ScenarioEditView, hit: AxialCoord, drag_started: bool, drag_stopped: bool)
    requires
        s.drag_payload is None,
        s.paint_mode == PaintMode::Select,
    ensures
        s.pointer(hit, drag_started, drag_stopped).grid == s.grid,
{
    if drag_started && drag_stopped && s.grid.in_bounds(hit) && s.grid.cells.contains_key(hit) {
        assert(s.grid.cells.insert(hit, s.grid.cells[hit]) =~= s.grid.cells);
    }
}

} // verus!
