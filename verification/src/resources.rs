//! Shared, read-only simulation state: the static tile grid with its
//! geometry queries, the directional input flags, and the per-frame
//! elapsed time.
//!
//! The grid follows a closed-world policy: any out-of-bounds index is
//! reported as `Block` by obstacle-class queries, while `is_empty` reports
//! `false` out of bounds. Unknown space is never empty.

use vstd::prelude::*;

verus! {

use crate::geom::{div_trunc, lemma_div_trunc_in_cell, trunc_div, Vector2};

/// Largest accepted tile edge length, in world units.
pub const TILE_SIZE_LIMIT: i64 = 0x10_0000;

/// Largest accepted grid width or height, in tiles.
pub const DIM_LIMIT: usize = 0x1_0000;

/// Largest accepted magnitude of the grid's world-space origin.
pub const ORIGIN_LIMIT: i64 = 0x100_0000_0000;

/// Largest world coordinate the geometry queries accept; far beyond any
/// reachable grid, but small enough that no query can overflow.
pub const WORLD_LIMIT: i64 = 0x1000_0000_0000_0000;

/// Largest tile index the index-to-world mapping accepts.
pub const INDEX_LIMIT: i64 = 0x10_0000;

/// Largest accepted numerator or denominator of the per-frame elapsed time.
pub const TIME_LIMIT: i64 = 0x10_0000;

/// Classification of one grid cell.
#[derive(Clone, Copy, Debug, PartialEq, Eq, Structural)]
pub enum TileType {
    Empty,
    Block,
    Slope45,
}

/// A world-space offset, used for the grid's origin.
#[derive(Clone, Copy, Debug, PartialEq, Eq, Structural, Default)]
pub struct PositionVector {
    pub x: i64,
    pub y: i64,
}

/// The four directional input flags; overwritten wholesale on each input
/// event, last writer wins.
#[derive(Clone, Copy, Debug, PartialEq, Eq, Structural)]
pub struct InputControls {
    pub up: bool,
    pub down: bool,
    pub left: bool,
    pub right: bool,
}

/// A directional key, as delivered by the input layer.
#[derive(Clone, Copy, Debug, PartialEq, Eq, Structural)]
pub enum Direction {
    Up,
    Down,
    Left,
    Right,
}

impl InputControls {
    pub fn new() -> (r: InputControls)
        ensures
            !r.up,
            !r.down,
            !r.left,
            !r.right,
    {
        InputControls { up: false, down: false, left: false, right: false }
    }

    /// Records that a directional key went down or up; only the named
    /// direction's flag changes.
    pub fn on_direction_key(&mut self, direction: Direction, pressed: bool)
        ensures
            final(self).up == (if direction == Direction::Up {
                pressed
            } else {
                old(self).up
            }),
            final(self).down == (if direction == Direction::Down {
                pressed
            } else {
                old(self).down
            }),
            final(self).left == (if direction == Direction::Left {
                pressed
            } else {
                old(self).left
            }),
            final(self).right == (if direction == Direction::Right {
                pressed
            } else {
                old(self).right
            }),
    {
        match direction {
            Direction::Up => self.up = pressed,
            Direction::Down => self.down = pressed,
            Direction::Left => self.left = pressed,
            Direction::Right => self.right = pressed,
        }
    }
}

impl Default for InputControls {
    fn default() -> (r: InputControls)
        ensures
            !r.up,
            !r.down,
            !r.left,
            !r.right,
    {
        InputControls { up: false, down: false, left: false, right: false }
    }
}

/// Why a per-frame elapsed time was rejected.
#[derive(Clone, Copy, Debug, PartialEq, Eq, Structural)]
pub enum TimeError {
    NegativeElapsed,
    NonPositiveDenominator,
    OutOfRange,
}

/// Elapsed time of one frame, as the exact rational `num / den` seconds.
#[derive(Clone, Copy, Debug, PartialEq, Eq, Structural)]
pub struct DeltaTime {
    pub num: i64,
    pub den: i64,
}

impl DeltaTime {
    /// A usable elapsed time: non-negative, positive denominator, bounded.
    pub open spec fn wf(self) -> bool {
        &&& 0 <= self.num <= TIME_LIMIT
        &&& 0 < self.den <= TIME_LIMIT
    }

    /// Accepts `num / den` seconds; a negative or oversized elapsed time is
    /// a caller error and is refused rather than simulated.
    pub fn new(num: i64, den: i64) -> (r: Result<DeltaTime, TimeError>)
        ensures
            den <= 0 ==> r == Err::<DeltaTime, TimeError>(TimeError::NonPositiveDenominator),
            den > 0 && num < 0 ==> r == Err::<DeltaTime, TimeError>(TimeError::NegativeElapsed),
            den > 0 && num >= 0 && (num > TIME_LIMIT || den > TIME_LIMIT) ==> r == Err::<
                DeltaTime,
                TimeError,
            >(TimeError::OutOfRange),
            den > 0 && 0 <= num <= TIME_LIMIT && den <= TIME_LIMIT ==> (r == Ok::<
                DeltaTime,
                TimeError,
            >(DeltaTime { num, den }) && r.unwrap().wf()),
    {
        if den <= 0 {
            Err(TimeError::NonPositiveDenominator)
        } else if num < 0 {
            Err(TimeError::NegativeElapsed)
        } else if num > TIME_LIMIT || den > TIME_LIMIT {
            Err(TimeError::OutOfRange)
        } else {
            Ok(DeltaTime { num, den })
        }
    }
}

/// Why a tile grid configuration was rejected at construction.
#[derive(Clone, Copy, Debug, PartialEq, Eq, Structural)]
pub enum MapError {
    NonPositiveTileSize,
    EmptyGrid,
    RaggedRows,
    OutOfRange,
}

/// The immutable tile grid: row-major cells, a world-space origin, and the
/// edge length of one square tile in world units.
#[derive(Clone, Debug)]
pub struct TileMap {
    pub tiles: Vec<Vec<TileType>>,
    pub position: PositionVector,
    pub width: usize,
    pub height: usize,
    pub tile_size: i64,
}

/// The first reason, in checking order, to refuse a grid configuration,
/// or `None` when it is acceptable.
pub open spec fn config_error(
    tiles: Seq<Seq<TileType>>,
    position: PositionVector,
    tile_size: i64,
) -> Option<MapError> {
    if tile_size <= 0 {
        Some(MapError::NonPositiveTileSize)
    } else if tile_size > TILE_SIZE_LIMIT {
        Some(MapError::OutOfRange)
    } else if position.x < -ORIGIN_LIMIT || position.x > ORIGIN_LIMIT || position.y
        < -ORIGIN_LIMIT || position.y > ORIGIN_LIMIT {
        Some(MapError::OutOfRange)
    } else if tiles.len() == 0 || tiles[0].len() == 0 {
        Some(MapError::EmptyGrid)
    } else if tiles.len() > DIM_LIMIT || tiles[0].len() > DIM_LIMIT {
        Some(MapError::OutOfRange)
    } else if exists|j: int| 0 <= j < tiles.len() && (#[trigger] tiles[j]).len() != tiles[0].len() {
        Some(MapError::RaggedRows)
    } else {
        None
    }
}

impl TileMap {
    /// A well-formed grid: consistent dimensions, uniform rows, a positive
    /// tile size, and everything small enough that no geometry query can
    /// overflow.
    pub open spec fn wf(self) -> bool {
        &&& self.tiles@.len() == self.height
        &&& 0 < self.height <= DIM_LIMIT
        &&& 0 < self.width <= DIM_LIMIT
        &&& forall|j: int|
            0 <= j < self.tiles@.len() ==> (#[trigger] self.tiles@[j])@.len() == self.width
        &&& 0 < self.tile_size <= TILE_SIZE_LIMIT
        &&& -ORIGIN_LIMIT <= self.position.x <= ORIGIN_LIMIT
        &&& -ORIGIN_LIMIT <= self.position.y <= ORIGIN_LIMIT
    }

    /// The kind stored at `(x, y)`; out-of-range indices read as `Block`,
    /// so the world is walled by convention.
    pub open spec fn spec_kind_at(self, x: int, y: int) -> TileType {
        if 0 <= x < self.width && 0 <= y < self.height {
            self.tiles@[y]@[x]
        } else {
            TileType::Block
        }
    }

    pub open spec fn spec_is_obstacle(self, x: int, y: int) -> bool {
        self.spec_kind_at(x, y) == TileType::Block
    }

    pub open spec fn spec_is_slope(self, x: int, y: int) -> bool {
        self.spec_kind_at(x, y) == TileType::Slope45
    }

    /// Emptiness is asymmetric with the obstacle query on purpose: out of
    /// bounds it is `false`, never `true`.
    pub open spec fn spec_is_empty(self, x: int, y: int) -> bool {
        0 <= x < self.width && 0 <= y < self.height && self.tiles@[y]@[x] == TileType::Empty
    }

    /// Column index of the tile containing world coordinate `wx`, truncated
    /// toward zero; may be negative or beyond the grid.
    pub open spec fn spec_tile_x_at(self, wx: int) -> int {
        div_trunc(wx - self.position.x, self.tile_size as int)
    }

    pub open spec fn spec_tile_y_at(self, wy: int) -> int {
        div_trunc(wy - self.position.y, self.tile_size as int)
    }

    /// World coordinate of the left edge of column `i`.
    pub open spec fn spec_tile_world_x(self, i: int) -> int {
        i * self.tile_size + self.position.x
    }

    /// World coordinate of the top edge of row `j`.
    pub open spec fn spec_tile_world_y(self, j: int) -> int {
        j * self.tile_size + self.position.y
    }

    /// Builds a grid from a pre-built kind array, an origin offset and a
    /// tile size, refusing any configuration that could divide by zero,
    /// loop forever or overflow a geometry query.
    #[verifier::loop_isolation(false)]
    pub fn new(tiles: Vec<Vec<TileType>>, position: PositionVector, tile_size: i64) -> (r: Result<
        TileMap,
        MapError,
    >)
        ensures
            match config_error(tiles@.map_values(|row: Vec<TileType>| row@), position, tile_size) {
                Some(e) => r == Err::<TileMap, MapError>(e),
                None => {
                    &&& r is Ok
                    &&& r.unwrap().wf()
                    &&& r.unwrap().tiles@ == tiles@
                    &&& r.unwrap().position == position
                    &&& r.unwrap().tile_size == tile_size
                    &&& r.unwrap().width == tiles@[0]@.len()
                    &&& r.unwrap().height == tiles@.len()
                },
            },
    {
        let ghost rows = tiles@.map_values(|row: Vec<TileType>| row@);
        proof {
            assert(rows.len() == tiles@.len());
            assert(forall|k: int| 0 <= k < rows.len() ==> rows[k] == (#[trigger] tiles@[k])@);
        }
        if tile_size <= 0 {
            return Err(MapError::NonPositiveTileSize);
        }
        if tile_size > TILE_SIZE_LIMIT {
            return Err(MapError::OutOfRange);
        }
        if position.x < -ORIGIN_LIMIT || position.x > ORIGIN_LIMIT || position.y < -ORIGIN_LIMIT
            || position.y > ORIGIN_LIMIT {
            return Err(MapError::OutOfRange);
        }
        if tiles.len() == 0 || tiles[0].len() == 0 {
            return Err(MapError::EmptyGrid);
        }
        if tiles.len() > DIM_LIMIT || tiles[0].len() > DIM_LIMIT {
            return Err(MapError::OutOfRange);
        }
        let width = tiles[0].len();
        let height = tiles.len();
        let mut j: usize = 1;
        while j < height
            invariant
                1 <= j <= height,
                height == tiles@.len(),
                width == tiles@[0]@.len(),
                forall|k: int| 0 <= k < j ==> (#[trigger] tiles@[k])@.len() == width,
                rows.len() == tiles@.len(),
                forall|k: int| 0 <= k < rows.len() ==> rows[k] == (#[trigger] tiles@[k])@,
            decreases height - j,
        {
            if tiles[j].len() != width {
                assert(rows[j as int].len() != rows[0].len());
                return Err(MapError::RaggedRows);
            }
            j += 1;
        }
        assert(forall|k: int| 0 <= k < rows.len() ==> (#[trigger] rows[k]).len() == rows[0].len());
        Ok(TileMap { tiles, position, width, height, tile_size })
    }

    /// A ready-made level: a walled border, an interior block at column 5 of
    /// row 15 and a diagonal run of slope tiles below it, everything else
    /// empty; 25 by 19 tiles of 32 world units at the world origin.
    #[verifier::loop_isolation(false)]
    pub fn demo() -> (r: TileMap)
        ensures
            r.wf(),
            r.width == 25,
            r.height == 19,
            r.tile_size == 32,
            r.position.x == 0,
            r.position.y == 0,
            forall|x: int, y: int|
                0 <= x < 25 && 0 <= y < 19 ==> r.spec_kind_at(x, y) == demo_kind(x, y),
    {
        let mut tiles: Vec<Vec<TileType>> = Vec::new();
        let mut y: usize = 0;
        while y < 19
            invariant
                y <= 19,
                tiles@.len() == y,
                forall|j: int| 0 <= j < y ==> (#[trigger] tiles@[j])@.len() == 25,
                forall|j: int, i: int|
                    0 <= j < y && 0 <= i < 25 ==> (#[trigger] tiles@[j]@[i]) == demo_kind(i, j),
            decreases 19 - y,
        {
            let mut row: Vec<TileType> = Vec::new();
            let mut x: usize = 0;
            while x < 25
                invariant
                    x <= 25,
                    row@.len() == x,
                    forall|i: int| 0 <= i < x ==> (#[trigger] row@[i]) == demo_kind(i, y as int),
                decreases 25 - x,
            {
                row.push(demo_tile(x, y));
                x += 1;
            }
            tiles.push(row);
            y += 1;
        }
        TileMap {
            tiles,
            position: PositionVector { x: 0, y: 0 },
            width: 25,
            height: 19,
            tile_size: 32,
        }
    }

    /// Both tile indices of the tile containing `point`.
    pub fn get_tile_at_point(&self, point: Vector2) -> (r: Vector2)
        requires
            self.wf(),
            -WORLD_LIMIT <= point.x <= WORLD_LIMIT,
            -WORLD_LIMIT <= point.y <= WORLD_LIMIT,
        ensures
            r.x == self.spec_tile_x_at(point.x as int),
            r.y == self.spec_tile_y_at(point.y as int),
    {
        Vector2 { x: self.get_tile_x_at_point(point.x), y: self.get_tile_y_at_point(point.y) }
    }

    pub fn get_tile_y_at_point(&self, y: i64) -> (r: i64)
        requires
            self.wf(),
            -WORLD_LIMIT <= y <= WORLD_LIMIT,
        ensures
            r == self.spec_tile_y_at(y as int),
    {
        trunc_div(y - self.position.y, self.tile_size)
    }

    pub fn get_tile_x_at_point(&self, x: i64) -> (r: i64)
        requires
            self.wf(),
            -WORLD_LIMIT <= x <= WORLD_LIMIT,
        ensures
            r == self.spec_tile_x_at(x as int),
    {
        trunc_div(x - self.position.x, self.tile_size)
    }

    /// World position of the top-left corner of tile `(x, y)`.
    pub fn get_map_tile_position(&self, x: i64, y: i64) -> (r: Vector2)
        requires
            self.wf(),
            -INDEX_LIMIT <= x <= INDEX_LIMIT,
            -INDEX_LIMIT <= y <= INDEX_LIMIT,
        ensures
            r.x == self.spec_tile_world_x(x as int),
            r.y == self.spec_tile_world_y(y as int),
    {
        Vector2 { x: self.get_map_tile_x_position(x), y: self.get_map_tile_y_position(y) }
    }

    pub fn get_map_tile_x_position(&self, x: i64) -> (r: i64)
        requires
            self.wf(),
            -INDEX_LIMIT <= x <= INDEX_LIMIT,
        ensures
            r == self.spec_tile_world_x(x as int),
    {
        proof {
            assert(-0x100_0000_0000 <= x * self.tile_size <= 0x100_0000_0000) by (nonlinear_arith)
                requires
                    -INDEX_LIMIT <= x <= INDEX_LIMIT,
                    0 < self.tile_size <= TILE_SIZE_LIMIT,
            ;
        }
        x * self.tile_size + self.position.x
    }

    pub fn get_map_tile_y_position(&self, y: i64) -> (r: i64)
        requires
            self.wf(),
            -INDEX_LIMIT <= y <= INDEX_LIMIT,
        ensures
            r == self.spec_tile_world_y(y as int),
    {
        proof {
            assert(-0x100_0000_0000 <= y * self.tile_size <= 0x100_0000_0000) by (nonlinear_arith)
                requires
                    -INDEX_LIMIT <= y <= INDEX_LIMIT,
                    0 < self.tile_size <= TILE_SIZE_LIMIT,
            ;
        }
        y * self.tile_size + self.position.y
    }

    /// World position of the top-left corner of the tile whose indices are
    /// the components of `coords`.
    pub fn get_map_tile_position_vec(&self, coords: Vector2) -> (r: Vector2)
        requires
            self.wf(),
            -INDEX_LIMIT <= coords.x <= INDEX_LIMIT,
            -INDEX_LIMIT <= coords.y <= INDEX_LIMIT,
        ensures
            r.x == self.spec_tile_world_x(coords.x as int),
            r.y == self.spec_tile_world_y(coords.y as int),
    {
        self.get_map_tile_position(coords.x, coords.y)
    }

    /// The in-range unsigned indices, or `None` out of range.
    pub fn in_bounds(&self, x: i64, y: i64) -> (r: Option<(usize, usize)>)
        requires
            self.wf(),
        ensures
            (0 <= x < self.width && 0 <= y < self.height) ==> r == Some::<(usize, usize)>(
                ((x as usize), (y as usize)),
            ),
            !(0 <= x < self.width && 0 <= y < self.height) ==> r == None::<(usize, usize)>,
    {
        if x < 0 || y < 0 {
            None
        } else if x >= self.width as i64 || y >= self.height as i64 {
            None
        } else {
            Some((x as usize, y as usize))
        }
    }

    pub fn get_tile(&self, x: i64, y: i64) -> (r: TileType)
        requires
            self.wf(),
        ensures
            r == self.spec_kind_at(x as int, y as int),
    {
        if let Some((xu, yu)) = self.in_bounds(x, y) {
            self.tiles[yu][xu]
        } else {
            TileType::Block
        }
    }

    pub fn is_obstacle(&self, x: i64, y: i64) -> (r: bool)
        requires
            self.wf(),
        ensures
            r == self.spec_is_obstacle(x as int, y as int),
    {
        self.get_tile(x, y) == TileType::Block
    }

    pub fn is_slope(&self, x: i64, y: i64) -> (r: bool)
        requires
            self.wf(),
        ensures
            r == self.spec_is_slope(x as int, y as int),
    {
        self.get_tile(x, y) == TileType::Slope45
    }

    pub fn is_empty(&self, x: i64, y: i64) -> (r: bool)
        requires
            self.wf(),
        ensures
            r == self.spec_is_empty(x as int, y as int),
    {
        if let Some((xu, yu)) = self.in_bounds(x, y) {
            self.tiles[yu][xu] == TileType::Empty
        } else {
            false
        }
    }
}

/// The cell classification of the demo level: a walled border, a block at
/// `(5, 15)`, slopes at `(6, 15)`, `(7, 16)` and `(8, 17)`, else empty.
pub open spec fn demo_kind(x: int, y: int) -> TileType {
    if x == 0 || x == 24 || y == 0 || y == 18 {
        TileType::Block
    } else if x == 5 && y == 15 {
        TileType::Block
    } else if (x == 6 && y == 15) || (x == 7 && y == 16) || (x == 8 && y == 17) {
        TileType::Slope45
    } else {
        TileType::Empty
    }
}

/// One cell of the demo level.
fn demo_tile(x: usize, y: usize) -> (t: TileType)
    ensures
        t == demo_kind(x as int, y as int),
{
    if x == 0 || x == 24 || y == 0 || y == 18 {
        TileType::Block
    } else if x == 5 && y == 15 {
        TileType::Block
    } else if (x == 6 && y == 15) || (x == 7 && y == 16) || (x == 8 && y == 17) {
        TileType::Slope45
    } else {
        TileType::Empty
    }
}

/// Round trip within a cell: every world point at a non-negative offset
/// strictly inside tile `(i, j)` maps back to indices `(i, j)`. Holds for
/// non-negative indices; truncation toward zero collapses the cells at
/// negative indices toward index zero.
pub proof fn lemma_tile_index_round_trip(m: TileMap, i: int, j: int, ex: int, ey: int)
    requires
        m.wf(),
        i >= 0,
        j >= 0,
        0 <= ex < m.tile_size,
        0 <= ey < m.tile_size,
    ensures
        m.spec_tile_x_at(m.spec_tile_world_x(i) + ex) == i,
        m.spec_tile_y_at(m.spec_tile_world_y(j) + ey) == j,
{
    lemma_div_trunc_in_cell(i, ex, m.tile_size as int);
    lemma_div_trunc_in_cell(j, ey, m.tile_size as int);
}

/// Closed-world policy: out-of-range indices read as `Block`, so they are
/// obstacles; the emptiness query on the same indices is `false`.
pub proof fn lemma_out_of_range_is_walled(m: TileMap, x: int, y: int)
    requires
        m.wf(),
        !(0 <= x < m.width && 0 <= y < m.height),
    ensures
        m.spec_kind_at(x, y) == TileType::Block,
        m.spec_is_obstacle(x, y),
        !m.spec_is_empty(x, y),
{
}

} // verus!
