use board_app::models::action::{ActionRow, ActionType, NamedId};
use board_app::models::scenario::{AxialCoord, EditableGrid, TileOccupant};
use board_app::pages::action_edit::{named_list_sql, selected_name, ActionUiState, OwnerKind};
use board_app::pages::level_edit::{truncate_preview, LevelUiState};
use board_app::pages::scenario_edit::{
    placeable_list_sql, selected_scenario_name, NamedScenario, PaintMode, ScenarioUiState,
};
use board_app::pages::simulation::{retain_selection, LoadedScenario, SimulationUiState};
use board_app::pages::unit_edit::UnitUiState;

fn named(id: i64, name: &str) -> NamedId {
    NamedId { id, name: name.to_string() }
}

fn scen(id: i64, name: &str) -> NamedScenario {
    NamedScenario { id, name: name.to_string() }
}

#[test]
fn truncate_preview_short_text_is_trimmed_only() {
    assert_eq!(truncate_preview("  hello  ", 32), "hello");
    assert_eq!(truncate_preview("", 32), "");
    assert_eq!(truncate_preview(" \t\n ", 3), "");
    assert_eq!(truncate_preview("abc", 3), "abc");
}

#[test]
fn truncate_preview_long_text_gets_ellipsis() {
    assert_eq!(truncate_preview("abcdef", 3), "abc\u{2026}");
    assert_eq!(truncate_preview("  abcd ", 3), "abc\u{2026}");
    assert_eq!(truncate_preview("héllo wörld", 5), "héllo\u{2026}");
    assert_eq!(truncate_preview("abc", 0), "\u{2026}");
    let long = "x".repeat(40);
    assert_eq!(truncate_preview(&long, 32).chars().count(), 33);
}

#[test]
fn owner_kind_text_and_default() {
    assert_eq!(OwnerKind::default(), OwnerKind::Unit);
    for k in [OwnerKind::Unit, OwnerKind::Item, OwnerKind::Level] {
        assert_eq!(OwnerKind::from_str(k.as_str()), Some(k));
    }
    assert_eq!(OwnerKind::from_str("Npc"), None);
}

#[test]
fn named_list_queries() {
    assert_eq!(
        named_list_sql("Level"),
        Some("SELECT id, name FROM Level ORDER BY name ASC, id ASC")
    );
    assert_eq!(named_list_sql("Unit"), Some("SELECT id, name FROM Unit ORDER BY name ASC, id ASC"));
    assert_eq!(named_list_sql("Action"), None);
    assert_eq!(placeable_list_sql("Item"), Some("SELECT id, name FROM Item ORDER BY name ASC, id ASC"));
    assert_eq!(placeable_list_sql("Level"), None);
}

#[test]
fn selection_labels() {
    let list = vec![named(1, "Orc"), named(2, "Elf"), named(2, "Elf twin")];
    assert_eq!(selected_name(Some(2), &list), "Elf");
    assert_eq!(selected_name(Some(3), &list), "<select>");
    assert_eq!(selected_name(None, &list), "<select>");
    let scens = vec![scen(5, "Ambush")];
    assert_eq!(selected_scenario_name(Some(5), &scens), "Ambush");
    assert_eq!(selected_scenario_name(Some(6), &scens), "<select>");
}

#[test]
fn unit_form() {
    let mut s = UnitUiState::default();
    assert!(!s.can_create());
    s.new_name = "   ".to_string();
    assert!(!s.can_create());
    s.new_name = " Knight ".to_string();
    s.new_strength = 5;
    s.last_error = Some("old".to_string());
    assert!(s.can_create());
    s.clear_create_form();
    assert_eq!(s.new_name, "");
    assert_eq!(s.new_strength, 0);
    assert_eq!(s.last_error.as_deref(), Some("old"));
}

#[test]
fn level_form() {
    let mut s = LevelUiState::default();
    s.new_name = "Champion".to_string();
    s.new_rules_description = "rules".to_string();
    s.new_knowledge = 9;
    assert!(s.can_create());
    s.clear_create_form();
    assert!(!s.can_create());
    assert_eq!(s.new_rules_description, "");
    assert_eq!(s.new_knowledge, 0);
}

#[test]
fn action_forms_and_selection() {
    let mut s = ActionUiState::default();
    assert!(s.caches_empty());
    assert_eq!(s.new_action_type, ActionType::Attack);
    s.new_name = "Kick".to_string();
    s.new_action_type = ActionType::Interact;
    assert!(s.can_create());
    s.clear_create_form();
    assert_eq!(s.new_name, "");
    assert_eq!(s.new_action_type, ActionType::Attack);

    let row = ActionRow {
        id: 12,
        name: "Punch".to_string(),
        stamina_cost: 2,
        additional_costs: String::new(),
        action_type: ActionType::Attack,
        rules_description: "r".to_string(),
        flavor_description: "f".to_string(),
    };
    s.select_action(row);
    assert_eq!(s.selected_action_id, Some(12));
    assert_eq!(s.edit_name, "Punch");
    assert_eq!(s.edit_stamina_cost, 2);
    assert!(s.can_save());
    s.forget_deleted(13);
    assert_eq!(s.selected_action_id, Some(12));
    s.forget_deleted(12);
    assert_eq!(s.selected_action_id, None);
}

#[test]
fn action_owner_list_follows_kind() {
    let mut s = ActionUiState::default();
    s.cache_units = vec![named(1, "u")];
    s.cache_items = vec![named(2, "i")];
    s.cache_levels = vec![named(3, "l")];
    assert!(!s.caches_empty());
    assert_eq!(s.owner_list()[0].id, 1);
    s.assoc_owner_kind = OwnerKind::Item;
    assert_eq!(s.owner_list()[0].id, 2);
    s.assoc_owner_kind = OwnerKind::Level;
    assert_eq!(s.owner_list()[0].id, 3);
}

#[test]
fn paint_mode_text() {
    assert_eq!(PaintMode::Select.as_str(), "Select");
    assert_eq!(PaintMode::PlaceUnit.as_str(), "Place Unit");
    assert_eq!(PaintMode::PlaceItem.as_str(), "Place Item");
    assert_eq!(PaintMode::Erase.as_str(), "Erase");
}

#[test]
fn scenario_default_is_blank_21_by_21() {
    let s = ScenarioUiState::default();
    assert_eq!((s.grid.width, s.grid.height), (21, 21));
    assert_eq!(s.grid.name, "21x21");
    assert_eq!(s.paint_mode, PaintMode::Select);
    assert!(s.caches_empty());
    assert!(!s.can_save());
}

#[test]
fn scenario_place_erase_and_select() {
    let mut s = ScenarioUiState::default();
    let c = AxialCoord::new(4, 5);
    s.paint_mode = PaintMode::PlaceUnit;
    s.apply_pointer(c, false, false);
    assert_eq!(s.last_error.as_deref(), Some("Select a Unit first"));
    assert_eq!(s.grid.get(c), Some(None));
    s.selected_unit_id = Some(7);
    s.apply_pointer(c, false, false);
    assert_eq!(s.grid.get(c), Some(Some(TileOccupant::Unit(7))));
    assert!(s.tile_popup_open);
    assert_eq!(s.selected_tile, Some(c));

    s.paint_mode = PaintMode::PlaceItem;
    s.apply_pointer(AxialCoord::new(0, 0), false, false);
    assert_eq!(s.last_error.as_deref(), Some("Select an Item first"));
    s.selected_item_id = Some(2);
    s.apply_pointer(AxialCoord::new(0, 0), false, false);
    assert_eq!(s.grid.get(AxialCoord::new(0, 0)), Some(Some(TileOccupant::Item(2))));

    s.paint_mode = PaintMode::Erase;
    s.apply_pointer(c, false, false);
    assert_eq!(s.grid.get(c), Some(None));
    assert!(!s.tile_popup_open);

    s.paint_mode = PaintMode::Select;
    s.apply_pointer(AxialCoord::new(1, 1), false, false);
    assert!(s.tile_popup_open);
    assert_eq!(s.selected_tile, Some(AxialCoord::new(1, 1)));
}

#[test]
fn scenario_drag_moves_occupant() {
    let mut s = ScenarioUiState::default();
    let from = AxialCoord::new(2, 2);
    let to = AxialCoord::new(6, 3);
    s.grid.set(from, Some(TileOccupant::Item(4)));
    s.grid.set(AxialCoord::new(0, 0), Some(TileOccupant::Unit(1)));
    s.apply_pointer(from, true, false);
    assert_eq!(s.drag_payload, Some(TileOccupant::Item(4)));
    assert_eq!(s.drag_from_tile, Some(from));
    assert!(!s.tile_popup_open);
    s.apply_pointer(AxialCoord::new(3, 3), false, false);
    assert_eq!(s.selected_tile, None);
    s.apply_pointer(to, false, true);
    assert_eq!(s.grid.get(to), Some(Some(TileOccupant::Item(4))));
    assert_eq!(s.grid.get(from), Some(None));
    assert_eq!(s.grid.get(AxialCoord::new(0, 0)), Some(Some(TileOccupant::Unit(1))));
    assert_eq!(s.drag_payload, None);
    assert_eq!(s.drag_from_tile, None);
    assert_eq!(s.selected_tile, Some(to));
}

#[test]
fn scenario_drag_back_onto_same_tile_keeps_occupant() {
    let mut s = ScenarioUiState::default();
    let c = AxialCoord::new(1, 2);
    s.grid.set(c, Some(TileOccupant::Unit(3)));
    s.apply_pointer(c, true, false);
    s.apply_pointer(c, false, true);
    assert_eq!(s.grid.get(c), Some(Some(TileOccupant::Unit(3))));
}

#[test]
fn scenario_drag_from_empty_tile_paints() {
    let mut s = ScenarioUiState::default();
    s.paint_mode = PaintMode::PlaceUnit;
    s.selected_unit_id = Some(8);
    let c = AxialCoord::new(3, 3);
    s.apply_pointer(c, true, false);
    assert_eq!(s.drag_payload, None);
    assert_eq!(s.grid.get(c), Some(Some(TileOccupant::Unit(8))));
}

#[test]
fn scenario_remove_occupant_messages() {
    let mut s = ScenarioUiState::default();
    let a = AxialCoord::new(0, 1);
    let b = AxialCoord::new(1, 1);
    s.grid.set(a, Some(TileOccupant::Item(1)));
    s.grid.set(b, Some(TileOccupant::Unit(2)));
    s.remove_occupant(a);
    assert_eq!(s.last_info.as_deref(), Some("Item removed from tile."));
    assert_eq!(s.grid.get(a), Some(None));
    s.remove_occupant(b);
    assert_eq!(s.last_info.as_deref(), Some("Unit removed from tile."));
    s.last_info = None;
    s.remove_occupant(b);
    assert_eq!(s.last_info, None);
}

#[test]
fn scenario_new_save_and_load() {
    let mut s = ScenarioUiState::default();
    s.scenario_name = "  Siege ".to_string();
    assert!(s.can_save());
    s.grid.set(AxialCoord::new(1, 1), Some(TileOccupant::Unit(1)));
    s.record_saved(10, 20);
    assert_eq!(s.scenario_id, Some(10));
    assert_eq!(s.grid.grid_id, Some(20));
    s.new_scenario();
    assert_eq!(s.scenario_id, None);
    assert_eq!(s.scenario_name, "");
    assert_eq!(s.grid.grid_id, None);
    assert_eq!(s.grid.get(AxialCoord::new(1, 1)), Some(None));
    assert_eq!(s.last_info.as_deref(), Some("New scenario initialized."));

    let mut grid = EditableGrid::new(5, 5);
    grid.set(AxialCoord::new(4, 4), Some(TileOccupant::Item(3)));
    s.selected_tile = Some(AxialCoord::new(0, 0));
    s.apply_loaded(LoadedScenario {
        scenario_id: 11,
        scenario_name: "Loaded".to_string(),
        scenario_description: "desc".to_string(),
        grid,
    });
    assert_eq!(s.scenario_id, Some(11));
    assert_eq!(s.scenario_name, "Loaded");
    assert_eq!(s.scenario_description, "desc");
    assert_eq!(s.grid.width, 5);
    assert_eq!(s.grid.get(AxialCoord::new(4, 4)), Some(Some(TileOccupant::Item(3))));
    assert_eq!(s.selected_tile, None);
}

#[test]
fn simulation_selection_survives_refresh_only_when_listed() {
    let list = vec![scen(1, "A"), scen(2, "B")];
    assert_eq!(retain_selection(Some(2), &list), Some(2));
    assert_eq!(retain_selection(Some(3), &list), None);
    assert_eq!(retain_selection(None, &list), None);

    let mut s = SimulationUiState::default();
    assert!(!s.did_initial_refresh);
    s.selected_scenario_id = Some(2);
    s.refresh_scenarios(list);
    assert_eq!(s.selected_scenario_id, Some(2));
    assert_eq!(s.cache_scenarios.len(), 2);
    s.refresh_scenarios(vec![scen(1, "A")]);
    assert_eq!(s.selected_scenario_id, None);
}

#[test]
fn scenario_drop_is_a_move_in_every_paint_mode() {
    for mode in [PaintMode::Select, PaintMode::PlaceUnit, PaintMode::PlaceItem, PaintMode::Erase] {
        let mut s = ScenarioUiState::default();
        s.paint_mode = mode;
        s.selected_unit_id = Some(70);
        s.selected_item_id = Some(80);
        let from = AxialCoord::new(1, 1);
        let to = AxialCoord::new(5, 6);
        s.grid.set(from, Some(TileOccupant::Unit(9)));
        s.apply_pointer(from, true, false);
        assert_eq!(s.grid.get(from), Some(Some(TileOccupant::Unit(9))));
        s.apply_pointer(to, false, true);
        assert_eq!(s.grid.get(to), Some(Some(TileOccupant::Unit(9))));
        assert_eq!(s.grid.get(from), Some(None));
        assert_eq!(s.selected_tile, Some(to));
        assert_eq!(s.drag_payload, None);
        assert_eq!(s.drag_from_tile, None);
        assert_eq!(s.last_error, None);
    }
}

#[test]
fn scenario_stop_without_payload_paints() {
    let mut s = ScenarioUiState::default();
    s.paint_mode = PaintMode::PlaceItem;
    s.selected_item_id = Some(4);
    let c = AxialCoord::new(2, 3);
    s.apply_pointer(c, false, true);
    assert_eq!(s.grid.get(c), Some(Some(TileOccupant::Item(4))));
}
