//! Scenario and grid data models.
//!
//! A scenario references a grid; a grid holds tiles at axial coordinates
//! (q, r); each tile may hold a unit or an item, never both.

use vstd::prelude::*;
use std::collections::HashMap;

verus! {

broadcast use vstd::std_specs::hash::group_hash_axioms;

/// A row of the `Scenario` table.
#[derive(Debug, Clone, PartialEq, Eq)]
pub struct ScenarioRow {
    pub id: i64,
    pub name: String,
    pub description: String,
    pub grid_id: i64,
    pub created_at: String,
    pub updated_at: String,
}

/// A row of the `Grid` table.
#[derive(Debug, Clone, PartialEq, Eq)]
pub struct GridRow {
    pub id: i64,
    pub name: String,
    pub width: i32,
    pub height: i32,
    pub created_at: String,
    pub updated_at: String,
}

/// The occupant placed on a tile.
#[derive(Debug, Clone, Copy, PartialEq, Eq, Hash, Structural)]
pub enum TileOccupant {
    Unit(i64),
    Item(i64),
}

impl TileOccupant {
    /// The unit id, when the occupant is a unit.
    pub fn unit_id(self) -> (r: Option<i64>)
        ensures
            r == (match self {
                TileOccupant::Unit(id) => Some(id),
                TileOccupant::Item(_) => None::<i64>,
            }),
    {
        match self {
            TileOccupant::Unit(id) => Some(id),
            _ => None,
        }
    }

    /// The item id, when the occupant is an item.
    pub fn item_id(self) -> (r: Option<i64>)
        ensures
            r == (match self {
                TileOccupant::Item(id) => Some(id),
                TileOccupant::Unit(_) => None::<i64>,
            }),
    {
        match self {
            TileOccupant::Item(id) => Some(id),
            _ => None,
        }
    }
}

/// The occupant that a pair of nullable `unit_id` / `item_id` columns
/// describes: a unit when only the unit id is set, an item when only the
/// item id is set, and nothing otherwise (both set is invalid data).
pub open spec fn occupant_from_columns(unit_id: Option<i64>, item_id: Option<i64>) -> Option<TileOccupant> {
    match (unit_id, item_id) {
        (Some(uid), None) => Some(TileOccupant::Unit(uid)),
        (None, Some(iid)) => Some(TileOccupant::Item(iid)),
        _ => None,
    }
}

/// A decoded occupant carries the id of the column it came from: a unit
/// comes only from a set unit column with the item column null, an item
/// only from a set item column with the unit column null, and a row with
/// exactly one column set always decodes to an occupant.
pub proof fn lemma_occupant_columns(unit_id: Option<i64>, item_id: Option<i64>)
    ensures
        occupant_from_columns(unit_id, item_id) matches Some(TileOccupant::Unit(x)) ==> unit_id == Some(x)
            && item_id is None,
        occupant_from_columns(unit_id, item_id) matches Some(TileOccupant::Item(x)) ==> item_id == Some(x)
            && unit_id is None,
        (unit_id is Some && item_id is None) || (unit_id is None && item_id is Some)
            ==> occupant_from_columns(unit_id, item_id) is Some,
{
}

/// A stored record names its occupant in the matching column: a unit's id
/// in the unit column, an item's id in the item column, the other null, at
/// the tile's coordinates.
pub proof fn lemma_record_columns(c: AxialCoord, o: TileOccupant)
    ensures
        record_of(c, o).q == c.q && record_of(c, o).r == c.r,
        o matches TileOccupant::Unit(x) ==> record_of(c, o).unit_id == Some(x) && record_of(c, o).item_id is None,
        o matches TileOccupant::Item(x) ==> record_of(c, o).item_id == Some(x) && record_of(c, o).unit_id is None,
{
}

fn decode_occupant(unit_id: Option<i64>, item_id: Option<i64>) -> (o: Option<TileOccupant>)
    ensures
        o == occupant_from_columns(unit_id, item_id),
{
    match (unit_id, item_id) {
        (Some(uid), None) => Some(TileOccupant::Unit(uid)),
        (None, Some(iid)) => Some(TileOccupant::Item(iid)),
        _ => None,
    }
}

/// Axial hex coordinates: `q` is the column-like axis, `r` the row-like axis.
#[derive(Debug, Clone, Copy, PartialEq, Eq, Hash, Structural)]
pub struct AxialCoord {
    pub q: i32,
    pub r: i32,
}

impl AxialCoord {
    pub fn new(q: i32, r: i32) -> (c: AxialCoord)
        ensures
            c.q == q,
            c.r == r,
    {
        AxialCoord { q, r }
    }
}

/// A row of the `GridTile` table.
#[derive(Debug, Clone, PartialEq, Eq)]
pub struct GridTileRow {
    pub id: i64,
    pub grid_id: i64,
    pub coord: AxialCoord,
    /// Exactly one of unit/item is set at a time, or neither.
    pub occupant: Option<TileOccupant>,
    pub created_at: String,
    pub updated_at: String,
}

impl GridTileRow {
    /// Builds a row from nullable `unit_id` / `item_id` columns; when both are
    /// set the data is invalid and the tile is treated as empty.
    pub fn from_nullable_occupant(
        id: i64,
        grid_id: i64,
        q: i32,
        r: i32,
        unit_id: Option<i64>,
        item_id: Option<i64>,
        created_at: String,
        updated_at: String,
    ) -> (row: GridTileRow)
        ensures
            row.id == id,
            row.grid_id == grid_id,
            row.coord == (AxialCoord { q, r }),
            row.occupant == occupant_from_columns(unit_id, item_id),
            row.created_at == created_at,
            row.updated_at == updated_at,
    {
        let occupant = decode_occupant(unit_id, item_id);
        GridTileRow { id, grid_id, coord: AxialCoord { q, r }, occupant, created_at, updated_at }
    }
}

/// The abstract content of an [`EditableGrid`]: its metadata, its size, and
/// the occupant of every occupied in-bounds tile.
pub struct GridView {
    pub grid_id: Option<i64>,
    pub name: Seq<char>,
    pub width: int,
    pub height: int,
    pub cells: Map<AxialCoord, TileOccupant>,
}

impl GridView {
    pub open spec fn in_bounds(self, c: AxialCoord) -> bool {
        0 <= c.q && 0 <= c.r && c.q < self.width && c.r < self.height
    }

    /// The occupant of a tile, `None` when the tile is empty.
    pub open spec fn occupant(self, c: AxialCoord) -> Option<TileOccupant> {
        if self.cells.contains_key(c) {
            Some(self.cells[c])
        } else {
            None
        }
    }

    /// `None` outside the grid, else the tile's occupant.
    pub open spec fn get(self, c: AxialCoord) -> Option<Option<TileOccupant>> {
        if self.in_bounds(c) {
            Some(self.occupant(c))
        } else {
            None
        }
    }

    /// Writes an occupant (or emptiness) to an in-bounds tile; a write
    /// outside the grid changes nothing.
    pub open spec fn set(self, c: AxialCoord, o: Option<TileOccupant>) -> GridView {
        if !self.in_bounds(c) {
            self
        } else {
            GridView {
                cells: match o {
                    Some(x) => self.cells.insert(c, x),
                    None => self.cells.remove(c),
                },
                ..self
            }
        }
    }

    /// Every occupied tile lies inside the grid.
    pub open spec fn wf(self) -> bool {
        forall|c: AxialCoord| #[trigger] self.cells.contains_key(c) ==> self.in_bounds(c)
    }
}

/// In-memory grid for editing: a width x height rectangle of tiles keyed by
/// axial coordinate, each empty or holding one occupant.
#[derive(Debug, Clone)]
pub struct EditableGrid {
    pub grid_id: Option<i64>,
    pub name: String,
    pub width: i32,
    pub height: i32,
    tiles: HashMap<u64, Option<TileOccupant>>,
}

/// The map key of a tile with non-negative coordinates.
spec fn tile_key(c: AxialCoord) -> u64 {
    (c.q * 0x1_0000_0000 + c.r) as u64
}

fn key_of(c: AxialCoord) -> (k: u64)
    requires
        0 <= c.q,
        0 <= c.r,
    ensures
        k == tile_key(c),
{
    (c.q as u64) * 0x1_0000_0000u64 + (c.r as u64)
}

proof fn lemma_tile_key_injective(a: AxialCoord, b: AxialCoord)
    requires
        0 <= a.q,
        0 <= a.r,
        0 <= b.q,
        0 <= b.r,
        tile_key(a) == tile_key(b),
    ensures
        a == b,
{
}

impl View for EditableGrid {
    type V = GridView;

    closed spec fn view(&self) -> GridView {
        GridView {
            grid_id: self.grid_id,
            name: self.name@,
            width: self.width as int,
            height: self.height as int,
            cells: Map::new(
                |c: AxialCoord|
                    0 <= c.q && 0 <= c.r && c.q < self.width && c.r < self.height
                        && self.tiles@.contains_key(tile_key(c)) && self.tiles@[tile_key(c)] is Some,
                |c: AxialCoord| self.tiles@[tile_key(c)]->0,
            ),
        }
    }
}

impl EditableGrid {
    /// An empty, unsaved, unnamed grid of the given size.
    pub fn new(width: i32, height: i32) -> (g: EditableGrid)
        ensures
            g@ == (GridView {
                grid_id: None,
                name: Seq::empty(),
                width: width as int,
                height: height as int,
                cells: Map::empty(),
            }),
    {
        let g = EditableGrid { grid_id: None, name: String::new(), width, height, tiles: HashMap::new() };
        assert(g@.cells =~= Map::empty());
        g
    }

    /// The id under which the grid is stored, if it has been saved.
    pub fn grid_id(&self) -> (id: Option<i64>)
        ensures
            id == self@.grid_id,
    {
        self.grid_id
    }

    /// The grid's name.
    pub fn name(&self) -> (name: &String)
        ensures
            name@ == self@.name,
    {
        &self.name
    }

    /// The number of columns.
    pub fn width(&self) -> (w: i32)
        ensures
            w == self@.width,
    {
        self.width
    }

    /// The number of rows.
    pub fn height(&self) -> (h: i32)
        ensures
            h == self@.height,
    {
        self.height
    }

    /// Records the id under which the grid is stored.
    pub fn set_grid_id(&mut self, grid_id: Option<i64>)
        ensures
            final(self)@ == (GridView { grid_id, ..old(self)@ }),
    {
        self.grid_id = grid_id;
    }

    /// Renames the grid.
    pub fn set_name(&mut self, name: String)
        ensures
            final(self)@ == (GridView { name: name@, ..old(self)@ }),
    {
        self.name = name;
    }

    pub fn in_bounds(&self, c: AxialCoord) -> (b: bool)
        ensures
            b == self@.in_bounds(c),
            b == (0 <= c.q && c.q < self@.width && 0 <= c.r && c.r < self@.height),
    {
        c.q >= 0 && c.r >= 0 && c.q < self.width && c.r < self.height
    }

    /// `None` when `c` is outside the grid, else the tile's occupant.
    pub fn get(&self, c: AxialCoord) -> (r: Option<Option<TileOccupant>>)
        ensures
            r == self@.get(c),
            r is Some <==> (0 <= c.q && c.q < self@.width && 0 <= c.r && c.r < self@.height),
    {
        if !self.in_bounds(c) {
            return None;
        }
        let k = key_of(c);
        match self.tiles.get(&k) {
            Some(v) => Some(*v),
            None => Some(None),
        }
    }

    /// Writes `occupant` to tile `c`; does nothing when `c` is outside the grid.
    pub fn set(&mut self, c: AxialCoord, occupant: Option<TileOccupant>)
        ensures
            final(self)@ == old(self)@.set(c, occupant),
    {
        if !self.in_bounds(c) {
            return;
        }
        let k = key_of(c);
        self.tiles.insert(k, occupant);
        proof {
            assert forall|d: AxialCoord|
                0 <= d.q && 0 <= d.r && tile_key(d) == tile_key(c) implies d == c by {
                lemma_tile_key_injective(d, c);
            }
            assert(self@.cells =~= old(self)@.set(c, occupant).cells);
        }
    }

    /// Empties tile `c`; does nothing when `c` is outside the grid.
    pub fn clear(&mut self, c: AxialCoord)
        ensures
            final(self)@ == old(self)@.set(c, None),
    {
        if !self.in_bounds(c) {
            return;
        }
        let k = key_of(c);
        self.tiles.insert(k, None);
        proof {
            assert forall|d: AxialCoord|
                0 <= d.q && 0 <= d.r && tile_key(d) == tile_key(c) implies d == c by {
                lemma_tile_key_injective(d, c);
            }
            assert(self@.cells =~= old(self)@.set(c, None).cells);
        }
    }
}

/// The stored form of one tile of a grid: its coordinates and the nullable
/// `unit_id` / `item_id` columns of its occupant.
#[derive(Debug, Clone, Copy, PartialEq, Eq)]
pub struct TileRecord {
    pub q: i32,
    pub r: i32,
    pub unit_id: Option<i64>,
    pub item_id: Option<i64>,
}

/// The record that stores occupant `o` at tile `c`.
pub open spec fn record_of(c: AxialCoord, o: TileOccupant) -> TileRecord {
    match o {
        TileOccupant::Unit(uid) => TileRecord { q: c.q, r: c.r, unit_id: Some(uid), item_id: None },
        TileOccupant::Item(iid) => TileRecord { q: c.q, r: c.r, unit_id: None, item_id: Some(iid) },
    }
}

/// The grid obtained by writing each record, in order, onto `g`.
pub open spec fn apply_records(g: GridView, ts: Seq<TileRecord>) -> GridView
    decreases ts.len(),
{
    if ts.len() == 0 {
        g
    } else {
        let t = ts.last();
        apply_records(g, ts.drop_last()).set(
            AxialCoord { q: t.q, r: t.r },
            occupant_from_columns(t.unit_id, t.item_id),
        )
    }
}

/// The records of the occupied tiles of row `r` whose column is below `n`,
/// by increasing column.
pub open spec fn row_records(g: GridView, r: int, n: int) -> Seq<TileRecord>
    decreases n,
{
    if n <= 0 {
        Seq::empty()
    } else {
        let c = AxialCoord { q: (n - 1) as i32, r: r as i32 };
        row_records(g, r, n - 1) + if g.cells.contains_key(c) {
            seq![record_of(c, g.cells[c])]
        } else {
            Seq::empty()
        }
    }
}

/// The records of the occupied tiles of the rows below `m`, row by row.
pub open spec fn records_before_row(g: GridView, m: int) -> Seq<TileRecord>
    decreases m,
{
    if m <= 0 {
        Seq::empty()
    } else {
        records_before_row(g, m - 1) + row_records(g, m - 1, g.width)
    }
}

/// The records of all occupied tiles, in row-major order.
pub open spec fn stored_records(g: GridView) -> Seq<TileRecord> {
    records_before_row(g, g.height)
}

impl EditableGrid {
    /// Builds a saved grid of the given size from its stored tile records,
    /// writing them in order (a later record for the same tile wins; records
    /// outside the grid are ignored).
    pub fn from_tile_records(
        grid_id: i64,
        name: String,
        width: i32,
        height: i32,
        tiles: &Vec<TileRecord>,
    ) -> (g: EditableGrid)
        ensures
            g@ == apply_records(
                GridView {
                    grid_id: Some(grid_id),
                    name: name@,
                    width: width as int,
                    height: height as int,
                    cells: Map::empty(),
                },
                tiles@,
            ),
    {
        let mut g = EditableGrid::new(width, height);
        g.grid_id = Some(grid_id);
        g.name = name;
        let ghost base = g@;
        let mut i: usize = 0;
        while i < tiles.len()
            invariant
                i <= tiles.len(),
                base == (GridView {
                    grid_id: Some(grid_id),
                    name: name@,
                    width: width as int,
                    height: height as int,
                    cells: Map::empty(),
                }),
                g@ == apply_records(base, tiles@.take(i as int)),
            decreases tiles.len() - i,
        {
            let t = tiles[i];
            let occ = decode_occupant(t.unit_id, t.item_id);
            g.set(AxialCoord::new(t.q, t.r), occ);
            assert(tiles@.take(i as int + 1).drop_last() =~= tiles@.take(i as int));
            i = i + 1;
        }
        assert(tiles@.take(i as int) =~= tiles@);
        g
    }

    /// The records of all occupied tiles, in row-major order (rows by
    /// increasing `r`, each by increasing `q`).
    pub fn tile_records(&self) -> (out: Vec<TileRecord>)
        ensures
            out@ == stored_records(self@),
    {
        let mut out: Vec<TileRecord> = Vec::new();
        let mut r: i32 = 0;
        while r < self.height
            invariant
                0 <= r,
                self.height >= 0 ==> r <= self.height,
                self.height < 0 ==> r == 0,
                out@ == records_before_row(self@, r as int),
            decreases self.height - r,
        {
            let mut q: i32 = 0;
            while q < self.width
                invariant
                    0 <= r < self.height,
                    0 <= q,
                    self.width >= 0 ==> q <= self.width,
                    self.width < 0 ==> q == 0,
                    out@ == records_before_row(self@, r as int) + row_records(self@, r as int, q as int),
                decreases self.width - q,
            {
                let c = AxialCoord::new(q, r);
                let ghost prev = out@;
                match self.get(c) {
                    Some(Some(occ)) => {
                        let rec = match occ {
                            TileOccupant::Unit(uid) => TileRecord { q, r, unit_id: Some(uid), item_id: None },
                            TileOccupant::Item(iid) => TileRecord { q, r, unit_id: None, item_id: Some(iid) },
                        };
                        out.push(rec);
                        assert(out@ =~= records_before_row(self@, r as int) + row_records(self@, r as int, q as int + 1));
                    },
                    _ => {
                        assert(out@ =~= records_before_row(self@, r as int) + row_records(self@, r as int, q as int + 1));
                    },
                }
                q = q + 1;
            }
            assert(out@ =~= records_before_row(self@, r as int + 1));
            r = r + 1;
        }
        out
    }
}

proof fn lemma_apply_keeps_shape(g: GridView, ts: Seq<TileRecord>)
    ensures
        apply_records(g, ts).width == g.width,
        apply_records(g, ts).height == g.height,
        apply_records(g, ts).grid_id == g.grid_id,
        apply_records(g, ts).name == g.name,
    decreases ts.len(),
{
    if ts.len() > 0 {
        lemma_apply_keeps_shape(g, ts.drop_last());
    }
}

/// The tile that a record stores.
pub open spec fn record_coord(t: TileRecord) -> AxialCoord {
    AxialCoord { q: t.q, r: t.r }
}

/// What `row_records(g, r, n)` holds: records of occupied tiles of row `r`
/// with column below `n`, by increasing column, each tile of that range
/// present.
proof fn lemma_row_records(g: GridView, r: int, n: int)
    requires
        g.wf(),
        g.width <= i32::MAX,
        g.height <= i32::MAX,
        0 <= r < g.height,
        0 <= n <= g.width,
    ensures
        ({
            let rs = row_records(g, r, n);
            &&& forall|i: int| #![trigger rs[i]] 0 <= i < rs.len() ==> {
                let c = record_coord(rs[i]);
                &&& c.r == r
                &&& 0 <= c.q < n
                &&& g.cells.contains_key(c)
                &&& rs[i] == record_of(c, g.cells[c])
            }
            &&& forall|i: int, j: int| 0 <= i < j < rs.len() ==> #[trigger] rs[i].q < #[trigger] rs[j].q
            &&& forall|c: AxialCoord| #[trigger] g.cells.contains_key(c) && c.r == r && c.q < n
                ==> exists|i: int| 0 <= i < rs.len() && record_coord(rs[i]) == c
        }),
    decreases n,
{
    if n > 0 {
        lemma_row_records(g, r, n - 1);
        let prev = row_records(g, r, n - 1);
        let c = AxialCoord { q: (n - 1) as i32, r: r as i32 };
        let rs = row_records(g, r, n);
        if g.cells.contains_key(c) {
            let rec = record_of(c, g.cells[c]);
            assert(rs == prev.push(rec));
            assert(record_coord(rec) == c);
            assert forall|d: AxialCoord| #[trigger] g.cells.contains_key(d) && d.r == r && d.q < n
                implies exists|i: int| 0 <= i < rs.len() && record_coord(rs[i]) == d by {
                if d.q == n - 1 {
                    assert(d == c);
                    assert(record_coord(rs[prev.len() as int]) == d);
                } else {
                    let i = choose|i: int| 0 <= i < prev.len() && record_coord(prev[i]) == d;
                    assert(record_coord(rs[i]) == d);
                }
            }
        } else {
            assert(rs =~= prev);
            assert forall|d: AxialCoord| #[trigger] g.cells.contains_key(d) && d.r == r && d.q < n
                implies exists|i: int| 0 <= i < rs.len() && record_coord(rs[i]) == d by {
                assert(d != c);
                assert(d.q < n - 1);
            }
        }
    }
}

/// What `records_before_row(g, m)` holds: records of occupied tiles of the
/// rows below `m`, increasing by row then column, each such tile present.
proof fn lemma_records_before_row(g: GridView, m: int)
    requires
        g.wf(),
        g.width <= i32::MAX,
        g.height <= i32::MAX,
        0 <= m <= g.height,
    ensures
        ({
            let rs = records_before_row(g, m);
            &&& forall|i: int| #![trigger rs[i]] 0 <= i < rs.len() ==> {
                let c = record_coord(rs[i]);
                &&& 0 <= c.r < m
                &&& g.cells.contains_key(c)
                &&& rs[i] == record_of(c, g.cells[c])
            }
            &&& forall|i: int, j: int| 0 <= i < j < rs.len() ==> {
                ||| #[trigger] rs[i].r < #[trigger] rs[j].r
                ||| (rs[i].r == rs[j].r && rs[i].q < rs[j].q)
            }
            &&& forall|c: AxialCoord| #[trigger] g.cells.contains_key(c) && c.r < m
                ==> exists|i: int| 0 <= i < rs.len() && record_coord(rs[i]) == c
        }),
    decreases m,
{
    if m > 0 {
        lemma_records_before_row(g, m - 1);
        let prev = records_before_row(g, m - 1);
        let row = row_records(g, m - 1, g.width);
        let rs = records_before_row(g, m);
        assert(rs == prev + row);
        if g.width > 0 {
            lemma_row_records(g, m - 1, g.width);
        } else {
            assert(row.len() == 0);
        }
        assert forall|i: int| #![trigger rs[i]] 0 <= i < rs.len() implies {
            let c = record_coord(rs[i]);
            &&& 0 <= c.r < m
            &&& g.cells.contains_key(c)
            &&& rs[i] == record_of(c, g.cells[c])
        } by {
            if i >= prev.len() {
                assert(rs[i] == row[i - prev.len()]);
            }
        }
        assert forall|i: int, j: int| 0 <= i < j < rs.len() implies {
            ||| #[trigger] rs[i].r < #[trigger] rs[j].r
            ||| (rs[i].r == rs[j].r && rs[i].q < rs[j].q)
        } by {
            if j < prev.len() {
            } else if i < prev.len() {
                assert(rs[j] == row[j - prev.len()]);
                assert(rs[i] == prev[i]);
            } else {
                assert(rs[i] == row[i - prev.len()]);
                assert(rs[j] == row[j - prev.len()]);
            }
        }
        assert forall|c: AxialCoord| #[trigger] g.cells.contains_key(c) && c.r < m
            implies exists|i: int| 0 <= i < rs.len() && record_coord(rs[i]) == c by {
            if c.r < m - 1 {
                let i = choose|i: int| 0 <= i < prev.len() && record_coord(prev[i]) == c;
                assert(rs[i] == prev[i]);
            } else {
                assert(g.in_bounds(c));
                let i = choose|i: int| 0 <= i < row.len() && record_coord(row[i]) == c;
                assert(rs[prev.len() + i] == row[i]);
            }
        }
    }
}

/// Writing records for pairwise different tiles inside the grid: each
/// written tile holds what its record describes, every other tile keeps
/// its occupant.
proof fn lemma_apply_distinct(g: GridView, ts: Seq<TileRecord>)
    requires
        forall|i: int| #![trigger ts[i]] 0 <= i < ts.len() ==> g.in_bounds(record_coord(ts[i])),
        forall|i: int, j: int| 0 <= i < ts.len() && 0 <= j < ts.len() && i != j
            ==> record_coord(#[trigger] ts[i]) != record_coord(#[trigger] ts[j]),
    ensures
        forall|i: int| #![trigger ts[i]] 0 <= i < ts.len() ==> apply_records(g, ts).occupant(record_coord(ts[i]))
            == occupant_from_columns(ts[i].unit_id, ts[i].item_id),
        forall|c: AxialCoord| (forall|i: int| 0 <= i < ts.len() ==> record_coord(#[trigger] ts[i]) != c)
            ==> #[trigger] apply_records(g, ts).occupant(c) == g.occupant(c),
    decreases ts.len(),
{
    if ts.len() > 0 {
        let prev = ts.drop_last();
        lemma_apply_distinct(g, prev);
        lemma_apply_keeps_shape(g, prev);
        let h = apply_records(g, prev);
        let t = ts.last();
        let c = record_coord(t);
        let o = occupant_from_columns(t.unit_id, t.item_id);
        assert(h.in_bounds(c));
        assert forall|i: int| #![trigger ts[i]] 0 <= i < ts.len() implies apply_records(g, ts).occupant(
            record_coord(ts[i]),
        ) == occupant_from_columns(ts[i].unit_id, ts[i].item_id) by {
            if i < ts.len() - 1 {
                assert(ts[i] == prev[i]);
                assert(record_coord(ts[i]) != c);
            }
        }
        assert forall|d: AxialCoord| (forall|i: int| 0 <= i < ts.len() ==> record_coord(#[trigger] ts[i]) != d)
            implies #[trigger] apply_records(g, ts).occupant(d) == g.occupant(d) by {
            assert(record_coord(ts[ts.len() - 1]) != d);
            assert forall|i: int| 0 <= i < prev.len() implies record_coord(#[trigger] prev[i]) != d by {
                assert(prev[i] == ts[i]);
            }
            assert(h.occupant(d) == g.occupant(d));
            assert(apply_records(g, ts) == h.set(c, o));
            assert(h.set(c, o).occupant(d) == h.occupant(d));
        }
    }
}

/// Writing the stored records of a grid, in any order, onto an empty grid of
/// the same size gives back exactly the same occupied tiles: saving the
/// tiles of a grid and loading them again, however the rows come back,
/// loses and invents nothing.
pub proof fn lemma_tile_records_roundtrip(g: GridView, ts: Seq<TileRecord>, grid_id: Option<i64>, name: Seq<char>)
    requires
        g.wf(),
        g.width <= i32::MAX,
        g.height <= i32::MAX,
        ts.to_multiset() == stored_records(g).to_multiset(),
    ensures
        apply_records(
            GridView { grid_id, name, width: g.width, height: g.height, cells: Map::empty() },
            ts,
        ) == (GridView { grid_id, name, width: g.width, height: g.height, cells: g.cells }),
{
    broadcast use vstd::seq_lib::group_to_multiset_ensures;
    let base = GridView { grid_id, name, width: g.width, height: g.height, cells: Map::empty() };
    let s = stored_records(g);
    lemma_apply_keeps_shape(base, ts);
    if g.height <= 0 {
        assert(g.cells =~= Map::<AxialCoord, TileOccupant>::empty());
        assert(s.len() == 0);
        assert(ts.len() == 0) by {
            if ts.len() > 0 {
                assert(ts.contains(ts[0]));
                assert(ts.to_multiset().count(ts[0]) > 0);
            }
        }
        assert(apply_records(base, ts).cells =~= g.cells);
    } else {
        lemma_records_before_row(g, g.height);
        // the stored records hold distinct tiles, hence no record twice
        assert(s.no_duplicates()) by {
            assert forall|i: int, j: int| 0 <= i < s.len() && 0 <= j < s.len() && i != j implies s[i] != s[j] by {
                if i < j {
                    assert(s[i].r < s[j].r || (s[i].r == s[j].r && s[i].q < s[j].q));
                } else {
                    assert(s[j].r < s[i].r || (s[j].r == s[i].r && s[j].q < s[i].q));
                }
            }
        }
        s.lemma_multiset_has_no_duplicates();
        assert forall|x: TileRecord| ts.to_multiset().contains(x) implies ts.to_multiset().count(x) == 1 by {
        }
        ts.lemma_multiset_has_no_duplicates_conv();
        // every record of `ts` is a stored record
        assert forall|i: int| 0 <= i < ts.len() implies exists|k: int| 0 <= k < s.len() && #[trigger] ts[i] == s[k] by {
            assert(ts.contains(ts[i]));
            assert(ts.to_multiset().count(ts[i]) > 0);
            assert(s.to_multiset().count(ts[i]) > 0);
            assert(s.contains(ts[i]));
        }
        assert forall|i: int| #![trigger ts[i]] 0 <= i < ts.len() implies {
            let c = record_coord(ts[i]);
            &&& g.cells.contains_key(c)
            &&& ts[i] == record_of(c, g.cells[c])
        } by {
            let k = choose|k: int| 0 <= k < s.len() && ts[i] == s[k];
            assert(s[k] == ts[i]);
        }
        assert forall|i: int, j: int| 0 <= i < ts.len() && 0 <= j < ts.len() && i != j
            implies record_coord(#[trigger] ts[i]) != record_coord(#[trigger] ts[j]) by {
            let ci = record_coord(ts[i]);
            let cj = record_coord(ts[j]);
            if ci == cj {
                assert(ts[i] == record_of(ci, g.cells[ci]));
                assert(ts[j] == record_of(cj, g.cells[cj]));
                assert(ts[i] == ts[j]);
            }
        }
        assert forall|i: int| #![trigger ts[i]] 0 <= i < ts.len() implies base.in_bounds(record_coord(ts[i])) by {
            assert(g.cells.contains_key(record_coord(ts[i])));
        }
        lemma_apply_distinct(base, ts);
        let out = apply_records(base, ts);
        assert forall|c: AxialCoord| #[trigger] out.cells.contains_key(c) == g.cells.contains_key(c)
            && (g.cells.contains_key(c) ==> out.cells[c] == g.cells[c]) by {
            if g.cells.contains_key(c) {
                assert(c.r < g.height);
                let k = choose|k: int| 0 <= k < s.len() && record_coord(s[k]) == c;
                assert(s.contains(s[k]));
                assert(s.to_multiset().count(s[k]) > 0);
                assert(ts.to_multiset().count(s[k]) > 0);
                assert(ts.contains(s[k]));
                let i = choose|i: int| 0 <= i < ts.len() && ts[i] == s[k];
                assert(record_coord(ts[i]) == c);
                assert(out.occupant(c) == occupant_from_columns(ts[i].unit_id, ts[i].item_id));
            } else {
                assert forall|i: int| 0 <= i < ts.len() implies record_coord(#[trigger] ts[i]) != c by {
                }
                assert(out.occupant(c) == base.occupant(c));
            }
        }
        assert(out.cells =~= g.cells);
    }
}

impl Default for EditableGrid {
    /// An empty, unsaved, unnamed grid of size 0 x 0.
    fn default() -> (g: EditableGrid)
        ensures
            g@ == (GridView { grid_id: None, name: Seq::empty(), width: 0, height: 0, cells: Map::empty() }),
    {
        EditableGrid::new(0, 0)
    }
}

/// The view of every grid is well formed: no occupant lies outside it.
pub proof fn lemma_grid_view_wf(g: &EditableGrid)
    ensures
        g@.wf(),
{
}

/// Reading a tile gives back what was last written to it; a write leaves
/// every other tile, and the grid's metadata and size, unchanged; a write
/// outside the grid changes nothing; a second write to a tile replaces the
/// first.
pub proof fn lemma_grid_get_set(g: GridView, c: AxialCoord, o: Option<TileOccupant>, p: Option<TileOccupant>, d: AxialCoord)
    ensures
        g.in_bounds(c) ==> g.set(c, o).get(c) == Some(o),
        d != c ==> g.set(c, o).get(d) == g.get(d),
        !g.in_bounds(c) ==> g.set(c, o) == g,
        g.set(c, o).grid_id == g.grid_id,
        g.set(c, o).name == g.name,
        g.set(c, o).width == g.width,
        g.set(c, o).height == g.height,
        g.set(c, o).set(c, p) == g.set(c, p),
        g.wf() ==> g.set(c, o).wf(),
{
    if g.in_bounds(c) {
        assert(g.set(c, o).set(c, p).cells =~= g.set(c, p).cells);
    }
}

} // verus!
