use board_app::models::action::{ActionOwnerKind, ActionRow, ActionType, NamedId};
use board_app::models::level::LevelRow;
use board_app::models::scenario::{AxialCoord, EditableGrid, GridTileRow, TileOccupant, TileRecord};
use board_app::models::unit::UnitRow;

#[test]
fn action_type_text_roundtrip() {
    for t in ActionType::all() {
        assert_eq!(ActionType::from_str(t.as_str()), Some(*t));
    }
    assert_eq!(ActionType::Attack.as_str(), "Attack");
    assert_eq!(ActionType::Environment.as_str(), "Environment");
    assert_eq!(ActionType::Interact.as_str(), "Interact");
}

#[test]
fn action_type_rejects_unknown_text() {
    assert_eq!(ActionType::from_str("attack"), None);
    assert_eq!(ActionType::from_str(""), None);
    assert_eq!(ActionType::from_str("Attack "), None);
}

#[test]
fn action_type_all_and_default() {
    assert_eq!(
        ActionType::all(),
        &[ActionType::Attack, ActionType::Environment, ActionType::Interact]
    );
    assert_eq!(ActionType::default(), ActionType::Attack);
}

#[test]
fn action_owner_kind_text() {
    assert_eq!(ActionOwnerKind::Unit.as_str(), "Unit");
    assert_eq!(ActionOwnerKind::Item.as_str(), "Item");
    assert_eq!(ActionOwnerKind::Level.as_str(), "Level");
}

#[test]
fn action_row_from_columns_decodes_type() {
    let row = ActionRow::from_columns(
        7,
        "Slash".to_string(),
        3,
        "ammo=1".to_string(),
        "Environment",
        "rules".to_string(),
        "flavor".to_string(),
    )
    .unwrap();
    assert_eq!(row.id, 7);
    assert_eq!(row.name, "Slash");
    assert_eq!(row.stamina_cost, 3);
    assert_eq!(row.additional_costs, "ammo=1");
    assert_eq!(row.action_type, ActionType::Environment);
    assert_eq!(row.rules_description, "rules");
    assert_eq!(row.flavor_description, "flavor");

    let bad = ActionRow::from_columns(
        7,
        "Slash".to_string(),
        3,
        String::new(),
        "Spell",
        String::new(),
        String::new(),
    );
    assert_eq!(bad, None);
}

#[test]
fn named_id_is_plain_data() {
    let n = NamedId { id: 4, name: "Goblin".to_string() };
    assert_eq!(n.clone(), n);
}

#[test]
fn unit_and_level_constructors_keep_fields() {
    let u = UnitRow::new(1, "Knight".to_string(), 1, 2, 3, 4, 5, 6);
    assert_eq!(
        (u.id, u.name.as_str(), u.strength, u.agility, u.focus, u.intelligence, u.charisma, u.knowledge),
        (1, "Knight", 1, 2, 3, 4, 5, 6)
    );
    let l = LevelRow::new(2, "Veteran".to_string(), 6, 5, 4, 3, 2, 1, "r".to_string(), "f".to_string());
    assert_eq!(
        (l.id, l.name.as_str(), l.strength, l.agility, l.focus, l.intelligence, l.charisma, l.knowledge),
        (2, "Veteran", 6, 5, 4, 3, 2, 1)
    );
    assert_eq!(l.rules_description, "r");
    assert_eq!(l.flavor_description, "f");
}

#[test]
fn tile_occupant_ids() {
    assert_eq!(TileOccupant::Unit(5).unit_id(), Some(5));
    assert_eq!(TileOccupant::Unit(5).item_id(), None);
    assert_eq!(TileOccupant::Item(9).item_id(), Some(9));
    assert_eq!(TileOccupant::Item(9).unit_id(), None);
}

#[test]
fn grid_tile_row_from_nullable_occupant() {
    let mk = |u: Option<i64>, i: Option<i64>| {
        GridTileRow::from_nullable_occupant(1, 2, 3, 4, u, i, "c".to_string(), "u".to_string())
    };
    let row = mk(Some(10), None);
    assert_eq!(row.coord, AxialCoord::new(3, 4));
    assert_eq!(row.occupant, Some(TileOccupant::Unit(10)));
    assert_eq!(mk(None, Some(11)).occupant, Some(TileOccupant::Item(11)));
    assert_eq!(mk(Some(10), Some(11)).occupant, None);
    assert_eq!(mk(None, None).occupant, None);
    assert_eq!((row.id, row.grid_id), (1, 2));
    assert_eq!(row.created_at, "c");
    assert_eq!(row.updated_at, "u");
}

#[test]
fn grid_get_after_set_and_clear() {
    let mut g = EditableGrid::new(3, 2);
    let c = AxialCoord::new(2, 1);
    assert_eq!(g.get(c), Some(None));
    g.set(c, Some(TileOccupant::Unit(1)));
    assert_eq!(g.get(c), Some(Some(TileOccupant::Unit(1))));
    assert_eq!(g.get(AxialCoord::new(1, 1)), Some(None));
    g.set(c, Some(TileOccupant::Item(2)));
    assert_eq!(g.get(c), Some(Some(TileOccupant::Item(2))));
    g.clear(c);
    assert_eq!(g.get(c), Some(None));
}

#[test]
fn grid_bounds() {
    let mut g = EditableGrid::new(3, 2);
    assert!(g.in_bounds(AxialCoord::new(0, 0)));
    assert!(g.in_bounds(AxialCoord::new(2, 1)));
    assert!(!g.in_bounds(AxialCoord::new(3, 0)));
    assert!(!g.in_bounds(AxialCoord::new(0, 2)));
    assert!(!g.in_bounds(AxialCoord::new(-1, 0)));
    assert_eq!(g.get(AxialCoord::new(3, 0)), None);
    g.set(AxialCoord::new(-1, 0), Some(TileOccupant::Unit(1)));
    g.set(AxialCoord::new(5, 5), Some(TileOccupant::Unit(1)));
    assert!(g.tile_records().is_empty());
}

#[test]
fn grid_new_and_default() {
    let g = EditableGrid::new(21, 21);
    assert_eq!(g.grid_id, None);
    assert_eq!(g.name, "");
    assert_eq!((g.width, g.height), (21, 21));
    let d = EditableGrid::default();
    assert_eq!((d.width, d.height), (0, 0));
    assert_eq!(d.get(AxialCoord::new(0, 0)), None);
}

#[test]
fn grid_tile_records_row_major() {
    let mut g = EditableGrid::new(3, 3);
    g.set(AxialCoord::new(2, 0), Some(TileOccupant::Item(8)));
    g.set(AxialCoord::new(0, 2), Some(TileOccupant::Unit(3)));
    g.set(AxialCoord::new(1, 0), Some(TileOccupant::Unit(4)));
    g.set(AxialCoord::new(1, 1), Some(TileOccupant::Unit(5)));
    g.clear(AxialCoord::new(1, 1));
    let recs = g.tile_records();
    assert_eq!(
        recs,
        vec![
            TileRecord { q: 1, r: 0, unit_id: Some(4), item_id: None },
            TileRecord { q: 2, r: 0, unit_id: None, item_id: Some(8) },
            TileRecord { q: 0, r: 2, unit_id: Some(3), item_id: None },
        ]
    );
}

#[test]
fn grid_save_load_roundtrip() {
    let mut g = EditableGrid::new(4, 3);
    g.set(AxialCoord::new(3, 2), Some(TileOccupant::Unit(1)));
    g.set(AxialCoord::new(0, 1), Some(TileOccupant::Item(2)));
    let recs = g.tile_records();
    let back = EditableGrid::from_tile_records(9, "saved".to_string(), 4, 3, &recs);
    assert_eq!(back.grid_id, Some(9));
    assert_eq!(back.name, "saved");
    for r in -1..5 {
        for q in -1..6 {
            let c = AxialCoord::new(q, r);
            assert_eq!(back.get(c), g.get(c));
        }
    }
}

#[test]
fn grid_from_tile_records_later_wins_and_ignores_invalid() {
    let recs = vec![
        TileRecord { q: 0, r: 0, unit_id: Some(1), item_id: None },
        TileRecord { q: 0, r: 0, unit_id: None, item_id: Some(2) },
        TileRecord { q: 1, r: 0, unit_id: Some(3), item_id: Some(4) },
        TileRecord { q: 7, r: 7, unit_id: Some(5), item_id: None },
    ];
    let g = EditableGrid::from_tile_records(1, "g".to_string(), 2, 1, &recs);
    assert_eq!(g.get(AxialCoord::new(0, 0)), Some(Some(TileOccupant::Item(2))));
    assert_eq!(g.get(AxialCoord::new(1, 0)), Some(None));
    assert_eq!(g.get(AxialCoord::new(7, 7)), None);
}

#[test]
fn grid_set_name_and_id() {
    let mut g = EditableGrid::new(1, 1);
    g.set_name("arena".to_string());
    g.set_grid_id(Some(3));
    assert_eq!(g.name, "arena");
    assert_eq!(g.grid_id, Some(3));
}

#[test]
fn grid_load_in_any_row_order_gives_back_the_grid() {
    let mut g = EditableGrid::new(5, 4);
    g.set(AxialCoord::new(4, 3), Some(TileOccupant::Unit(1)));
    g.set(AxialCoord::new(0, 0), Some(TileOccupant::Item(2)));
    g.set(AxialCoord::new(2, 1), Some(TileOccupant::Unit(3)));
    let mut recs = g.tile_records();
    recs.reverse();
    recs.swap(0, 1);
    let back = EditableGrid::from_tile_records(1, "g".to_string(), 5, 4, &recs);
    for r in 0..4 {
        for q in 0..5 {
            let c = AxialCoord::new(q, r);
            assert_eq!(back.get(c), g.get(c));
        }
    }
}

#[test]
fn grid_getters() {
    let mut g = EditableGrid::new(7, 8);
    g.set_name("field".to_string());
    g.set_grid_id(Some(12));
    assert_eq!(g.width(), 7);
    assert_eq!(g.height(), 8);
    assert_eq!(g.name(), "field");
    assert_eq!(g.grid_id(), Some(12));
}
