//! Per-entity simulation state: position and velocity, each with a
//! one-step-back shadow value, and the axis-aligned bounding box with its
//! per-side wall-contact flags.

use vstd::prelude::*;

verus! {

use crate::geom::{
    div_round, lemma_div_round_bound, lemma_div_trunc_bound, round_div, Vector2,
};
use crate::resources::TileMap;

/// Largest velocity component magnitude the simulation accepts,
/// in world units per second.
pub const VEL_LIMIT: i64 = 0x10_0000;

/// Largest position component magnitude the simulation accepts.
pub const POS_LIMIT: i64 = 0x4_0000_0000_0000;

/// Largest bounding-box extent or offset magnitude the simulation accepts.
pub const SIZE_LIMIT: i64 = 0x10_0000;

/// Numerator of the rational diagonal speed factor; `408 / 577` is a best
/// rational approximation of `1 / sqrt(2)` with a small denominator.
pub const DIAG_NUM: i64 = 408;

/// Denominator of the rational diagonal speed factor.
pub const DIAG_DEN: i64 = 577;

/// An entity's world position, with a shadow of the value it had
/// immediately before the latest axis mutation.
#[derive(Clone, Copy, Debug, PartialEq, Eq, Structural)]
pub struct Position {
    pub previous: Vector2,
    pub current: Vector2,
}

/// `p` after an x-axis mutation to `nx`: the shadow takes the old current
/// value, the y axis is untouched.
pub open spec fn pos_with_x(p: Position, nx: int) -> Position {
    Position {
        previous: Vector2 { x: p.current.x, y: p.previous.y },
        current: Vector2 { x: nx as i64, y: p.current.y },
    }
}

/// `p` after a y-axis mutation to `ny`.
pub open spec fn pos_with_y(p: Position, ny: int) -> Position {
    Position {
        previous: Vector2 { x: p.previous.x, y: p.current.y },
        current: Vector2 { x: p.current.x, y: ny as i64 },
    }
}

impl Position {
    pub fn new(initial: Vector2) -> (r: Position)
        ensures
            r.previous == initial,
            r.current == initial,
    {
        Position { previous: initial, current: initial }
    }

    /// Moves the x coordinate by `dx`, shadowing the value it had.
    pub fn x(&mut self, dx: i64)
        requires
            i64::MIN <= old(self).current.x + dx <= i64::MAX,
        ensures
            *final(self) == pos_with_x(*old(self), old(self).current.x + dx),
    {
        self.previous.x = self.current.x;
        self.current.x = self.current.x + dx;
    }

    /// Moves the y coordinate by `dy`, shadowing the value it had.
    pub fn y(&mut self, dy: i64)
        requires
            i64::MIN <= old(self).current.y + dy <= i64::MAX,
        ensures
            *final(self) == pos_with_y(*old(self), old(self).current.y + dy),
    {
        self.previous.y = self.current.y;
        self.current.y = self.current.y + dy;
    }

    /// Sets the x coordinate outright (used to revert a blocked move),
    /// shadowing the value it had.
    pub fn set_x(&mut self, x: i64)
        ensures
            *final(self) == pos_with_x(*old(self), x as int),
    {
        self.previous.x = self.current.x;
        self.current.x = x;
    }

    /// Sets the y coordinate outright, shadowing the value it had.
    pub fn set_y(&mut self, y: i64)
        ensures
            *final(self) == pos_with_y(*old(self), y as int),
    {
        self.previous.y = self.current.y;
        self.current.y = y;
    }
}

/// An entity's velocity in world units per second, with a shadow of the
/// value each axis had before its latest mutation.
#[derive(Clone, Copy, Debug, PartialEq, Eq, Structural)]
pub struct Velocity {
    pub previous: Vector2,
    pub current: Vector2,
}

/// `v` after an x-axis mutation to `nx`.
pub open spec fn vel_with_x(v: Velocity, nx: int) -> Velocity {
    Velocity {
        previous: Vector2 { x: v.current.x, y: v.previous.y },
        current: Vector2 { x: nx as i64, y: v.current.y },
    }
}

/// `v` after a y-axis mutation to `ny`.
pub open spec fn vel_with_y(v: Velocity, ny: int) -> Velocity {
    Velocity {
        previous: Vector2 { x: v.previous.x, y: v.current.y },
        current: Vector2 { x: v.current.x, y: ny as i64 },
    }
}

/// The x component of `v` with diagonal normalization applied: scaled by
/// `408 / 577` (rounded to nearest) when both axes are active, else as is.
pub open spec fn norm_x(v: Vector2) -> int {
    if v.x != 0 && v.y != 0 {
        div_round(v.x * DIAG_NUM, DIAG_DEN as int)
    } else {
        v.x as int
    }
}

/// The y component of `v` with diagonal normalization applied.
pub open spec fn norm_y(v: Vector2) -> int {
    if v.x != 0 && v.y != 0 {
        div_round(v.y * DIAG_NUM, DIAG_DEN as int)
    } else {
        v.y as int
    }
}

/// Scaling a component by `408 / 577` with rounding never grows its
/// magnitude.
pub proof fn lemma_diag_scale_bound(c: int)
    ensures
        c >= 0 ==> 0 <= div_round(c * DIAG_NUM, DIAG_DEN as int) <= c,
        c < 0 ==> c <= div_round(c * DIAG_NUM, DIAG_DEN as int) <= 0,
{
    let m = if c >= 0 {
        c
    } else {
        -c
    };
    let a = m * 408;
    lemma_div_round_bound(a, 577);
    let q = (a + 288) / 577;
    vstd::arithmetic::div_mod::lemma_fundamental_div_mod(a + 288, 577);
    assert(577 * q + ((a + 288) % 577) == a + 288);
    assert(q * 577 <= m * 408 + 288) by (nonlinear_arith)
        requires
            577 * q + ((a + 288) % 577) == a + 288,
            0 <= (a + 288) % 577,
            a == m * 408,
    ;
    assert(q <= m) by (nonlinear_arith)
        requires
            q * 577 <= m * 408 + 288,
            m >= 0,
    ;
    assert(q >= 0) by {
        lemma_div_round_bound(a, 577);
        assert(a >= 0) by (nonlinear_arith)
            requires
                m >= 0,
                a == m * 408,
        ;
    }
    if c >= 0 {
        assert(div_round(c * 408, 577) == q);
    } else {
        assert(c * 408 == -a) by (nonlinear_arith)
            requires
                m == -c,
                a == m * 408,
        ;
        assert(div_round(c * 408, 577) == -q);
    }
}

/// Diagonal normalization keeps the speed of axial movement: with both
/// axes active at axis speed `s`, each scaled component is `s * 408 / 577`
/// before rounding, and the squared magnitude of that scaled pair equals
/// the axial squared magnitude `s * s` times `332928 / 332929` — the same
/// speed to within one part in 332929. The second clause bounds what the
/// final rounding to whole units can add: at most half a unit per axis.
pub proof fn lemma_diagonal_normalization_magnitude(s: int)
    ensures
        332929 * (2 * ((s * DIAG_NUM) * (s * DIAG_NUM))) == 332928 * ((s * DIAG_DEN) * (s
            * DIAG_DEN)),
        -DIAG_DEN <= 2 * (div_round(s * DIAG_NUM, DIAG_DEN as int) * DIAG_DEN - s * DIAG_NUM)
            <= DIAG_DEN,
{
    assert(332929 * (2 * ((s * 408) * (s * 408))) == 332928 * ((s * 577) * (s * 577)))
        by (nonlinear_arith);
    crate::geom::lemma_div_round_error(s * 408, 577);
}

impl Velocity {
    pub fn new(initial: Vector2) -> (r: Velocity)
        ensures
            r.previous == initial,
            r.current == initial,
    {
        Velocity { previous: initial, current: initial }
    }

    /// The current velocity with diagonal normalization applied: when both
    /// axis components are active at once, each is scaled by `408 / 577`
    /// (close to `1 / sqrt(2)`) so diagonal movement keeps axial speed;
    /// pure-axis movement is returned unchanged.
    pub fn get(&self) -> (r: Vector2)
        requires
            -VEL_LIMIT <= self.current.x <= VEL_LIMIT,
            -VEL_LIMIT <= self.current.y <= VEL_LIMIT,
        ensures
            r.x == norm_x(self.current),
            r.y == norm_y(self.current),
    {
        if self.current.x != 0 && self.current.y != 0 {
            Vector2 {
                x: round_div(self.current.x * DIAG_NUM, DIAG_DEN),
                y: round_div(self.current.y * DIAG_NUM, DIAG_DEN),
            }
        } else {
            self.current
        }
    }

    /// Sets the x component, shadowing the value it had.
    pub fn x(&mut self, x: i64)
        ensures
            *final(self) == vel_with_x(*old(self), x as int),
    {
        self.previous.x = self.current.x;
        self.current.x = x;
    }

    /// Sets the y component, shadowing the value it had.
    pub fn y(&mut self, y: i64)
        ensures
            *final(self) == vel_with_y(*old(self), y as int),
    {
        self.previous.y = self.current.y;
        self.current.y = y;
    }
}

/// Marks an entity as driven by the directional input flags; in the
/// entity arena the same fact is carried as the `controlled` flag of an
/// entity.
#[derive(Clone, Copy, Debug, Default, PartialEq, Eq, Structural)]
pub struct ControledByInput;

/// An entity's axis-aligned bounding box — tracked by center and half
/// extent — together with, for each side, whether it is pushing against a
/// wall this frame (`pushes_*`) and whether it was last frame (`pushed_*`).
#[derive(Clone, Copy, Debug, PartialEq, Eq, Structural)]
pub struct AABB {
    pub center: Vector2,
    pub fullsize: Vector2,
    pub halfsize: Vector2,
    pub offset: Vector2,
    pub pushed_right_wall: bool,
    pub pushes_right_wall: bool,
    pub pushed_left_wall: bool,
    pub pushes_left_wall: bool,
    pub pushed_up_wall: bool,
    pub pushes_up_wall: bool,
    pub pushed_down_wall: bool,
    pub pushes_down_wall: bool,
}

/// `a` with the right-wall contact flag set to `p`, shifting the value it
/// replaces into the one-frame-back shadow.
pub open spec fn with_pushes_right(a: AABB, p: bool) -> AABB {
    AABB { pushed_right_wall: a.pushes_right_wall, pushes_right_wall: p, ..a }
}

/// `a` with the left-wall contact flag set to `p`, shadowing the old value.
pub open spec fn with_pushes_left(a: AABB, p: bool) -> AABB {
    AABB { pushed_left_wall: a.pushes_left_wall, pushes_left_wall: p, ..a }
}

/// `a` with the up-wall contact flag set to `p`, shadowing the old value.
pub open spec fn with_pushes_up(a: AABB, p: bool) -> AABB {
    AABB { pushed_up_wall: a.pushes_up_wall, pushes_up_wall: p, ..a }
}

/// `a` with the down-wall contact flag set to `p`, shadowing the old value.
pub open spec fn with_pushes_down(a: AABB, p: bool) -> AABB {
    AABB { pushed_down_wall: a.pushes_down_wall, pushes_down_wall: p, ..a }
}

/// `a` recentered for an entity at position `p`: the stored center is the
/// position displaced by the half extent and the fixed local offset.
pub open spec fn recentered(a: AABB, p: Vector2) -> AABB {
    AABB {
        center: Vector2 {
            x: (p.x + a.halfsize.x + a.offset.x) as i64,
            y: (p.y + a.halfsize.y + a.offset.y) as i64,
        },
        ..a
    }
}

/// The boundary sample probe: walks sample points from `px` toward `far`
/// in steps of one tile edge (clamping the last sample to `far`), and
/// reports whether any sample's tile is an obstacle. A cheaper check than
/// the range scan — it can miss an obstacle narrower than the spacing
/// between two samples, a known precision/performance trade-off.
pub open spec fn probe_hit(m: TileMap, px: int, y: int, far: int) -> bool
    decreases far - px,
        when m.tile_size > 0 && px <= far
{
    if m.spec_is_obstacle(m.spec_tile_x_at(px), m.spec_tile_y_at(y)) {
        true
    } else if px >= far {
        false
    } else {
        let nx = if px + m.tile_size < far {
            px + m.tile_size
        } else {
            far
        };
        probe_hit(m, nx, y, far)
    }
}

/// The boundary sample probe along a vertical edge: walks sample points
/// from `py` toward `far` in steps of one tile edge (clamping the last
/// sample to `far`), at fixed world x, and reports whether any sample's
/// tile is an obstacle.
pub open spec fn probe_hit_vertical(m: TileMap, x: int, py: int, far: int) -> bool
    decreases far - py,
        when m.tile_size > 0 && py <= far
{
    if m.spec_is_obstacle(m.spec_tile_x_at(x), m.spec_tile_y_at(py)) {
        true
    } else if py >= far {
        false
    } else {
        let ny = if py + m.tile_size < far {
            py + m.tile_size
        } else {
            far
        };
        probe_hit_vertical(m, x, ny, far)
    }
}

/// Whether the probe along the bottom edge of the box of `p` finds an
/// obstacle: the sampled edge runs one unit below the box, inset one unit
/// from each bottom corner.
pub open spec fn spec_collides_down(m: TileMap, p: Position, bb: AABB) -> bool {
    let bl_x = p.current.x + 1;
    let y = p.current.y + bb.fullsize.y + 1;
    let far = bl_x + bb.fullsize.x - 2;
    let start = if bl_x < far {
        bl_x
    } else {
        far
    };
    probe_hit(m, start, y, far)
}

/// Whether the probe along the top edge of the box of `p` finds an
/// obstacle: the sampled edge runs one unit above the box, inset one unit
/// from each top corner.
pub open spec fn spec_collides_up(m: TileMap, p: Position, bb: AABB) -> bool {
    let tl_x = p.current.x + 1;
    let y = p.current.y - 1;
    let far = tl_x + bb.fullsize.x - 2;
    let start = if tl_x < far {
        tl_x
    } else {
        far
    };
    probe_hit(m, start, y, far)
}

/// Whether the probe along the right edge of the box of `p` finds an
/// obstacle: the sampled edge runs one unit to the right of the box,
/// inset one unit from each right corner.
pub open spec fn spec_collides_right(m: TileMap, p: Position, bb: AABB) -> bool {
    let x = p.current.x + bb.fullsize.x + 1;
    let top_y = p.current.y + 1;
    let far = top_y + bb.fullsize.y - 2;
    let start = if top_y < far {
        top_y
    } else {
        far
    };
    probe_hit_vertical(m, x, start, far)
}

/// Whether the probe along the left edge of the box of `p` finds an
/// obstacle: the sampled edge runs one unit to the left of the box,
/// inset one unit from each left corner.
pub open spec fn spec_collides_left(m: TileMap, p: Position, bb: AABB) -> bool {
    let x = p.current.x - 1;
    let top_y = p.current.y + 1;
    let far = top_y + bb.fullsize.y - 2;
    let start = if top_y < far {
        top_y
    } else {
        far
    };
    probe_hit_vertical(m, x, start, far)
}

/// Walks the horizontal probe: samples `(x, y)` for x from `from_x`
/// toward `far_x` one tile edge apart, the last sample clamped to
/// `far_x`, and reports whether any sample lands on an obstacle tile.
fn probe_along_x(map: &TileMap, from_x: i64, y: i64, far_x: i64) -> (r: bool)
    requires
        map.wf(),
        -0x8_0000_0000_0000 <= from_x <= 0x8_0000_0000_0000,
        -0x8_0000_0000_0000 <= far_x <= 0x8_0000_0000_0000,
        -0x8_0000_0000_0000 <= y <= 0x8_0000_0000_0000,
    ensures
        r == probe_hit(
            *map,
            if from_x < far_x {
                from_x as int
            } else {
                far_x as int
            },
            y as int,
            far_x as int,
        ),
{
    let ghost start = if from_x < far_x {
        from_x as int
    } else {
        far_x as int
    };
    let mut checked_x = from_x;
    let mut hit = false;
    loop
        invariant_except_break
            map.wf(),
            -0x8_0000_0000_0000 <= from_x,
            -0x8_0000_0000_0000 <= far_x <= 0x8_0000_0000_0000,
            -0x8_0000_0000_0000 <= y <= 0x8_0000_0000_0000,
            checked_x >= from_x,
            start == (if from_x < far_x {
                from_x as int
            } else {
                far_x as int
            }),
            !hit,
            probe_hit(
                *map,
                if checked_x < far_x {
                    checked_x as int
                } else {
                    far_x as int
                },
                y as int,
                far_x as int,
            ) == probe_hit(*map, start, y as int, far_x as int),
        ensures
            hit == probe_hit(*map, start, y as int, far_x as int),
        decreases far_x + map.tile_size - checked_x,
    {
        let checked = if checked_x < far_x {
            checked_x
        } else {
            far_x
        };
        let tile_x = map.get_tile_x_at_point(checked);
        let tile_y = map.get_tile_y_at_point(y);
        if map.is_obstacle(tile_x, tile_y) {
            proof {
                assert(probe_hit(*map, checked as int, y as int, far_x as int));
            }
            hit = true;
            break;
        }
        if checked >= far_x {
            proof {
                assert(!probe_hit(*map, checked as int, y as int, far_x as int));
            }
            break;
        }
        checked_x = checked + map.tile_size;
    }
    hit
}

/// Walks the vertical probe: samples `(x, y)` for y from `from_y` toward
/// `far_y` one tile edge apart, the last sample clamped to `far_y`, and
/// reports whether any sample lands on an obstacle tile.
fn probe_along_y(map: &TileMap, x: i64, from_y: i64, far_y: i64) -> (r: bool)
    requires
        map.wf(),
        -0x8_0000_0000_0000 <= x <= 0x8_0000_0000_0000,
        -0x8_0000_0000_0000 <= from_y <= 0x8_0000_0000_0000,
        -0x8_0000_0000_0000 <= far_y <= 0x8_0000_0000_0000,
    ensures
        r == probe_hit_vertical(
            *map,
            x as int,
            if from_y < far_y {
                from_y as int
            } else {
                far_y as int
            },
            far_y as int,
        ),
{
    let ghost start = if from_y < far_y {
        from_y as int
    } else {
        far_y as int
    };
    let mut checked_y = from_y;
    let mut hit = false;
    loop
        invariant_except_break
            map.wf(),
            -0x8_0000_0000_0000 <= from_y,
            -0x8_0000_0000_0000 <= far_y <= 0x8_0000_0000_0000,
            -0x8_0000_0000_0000 <= x <= 0x8_0000_0000_0000,
            checked_y >= from_y,
            start == (if from_y < far_y {
                from_y as int
            } else {
                far_y as int
            }),
            !hit,
            probe_hit_vertical(
                *map,
                x as int,
                if checked_y < far_y {
                    checked_y as int
                } else {
                    far_y as int
                },
                far_y as int,
            ) == probe_hit_vertical(*map, x as int, start, far_y as int),
        ensures
            hit == probe_hit_vertical(*map, x as int, start, far_y as int),
        decreases far_y + map.tile_size - checked_y,
    {
        let checked = if checked_y < far_y {
            checked_y
        } else {
            far_y
        };
        let tile_x = map.get_tile_x_at_point(x);
        let tile_y = map.get_tile_y_at_point(checked);
        if map.is_obstacle(tile_x, tile_y) {
            proof {
                assert(probe_hit_vertical(*map, x as int, checked as int, far_y as int));
            }
            hit = true;
            break;
        }
        if checked >= far_y {
            proof {
                assert(!probe_hit_vertical(*map, x as int, checked as int, far_y as int));
            }
            break;
        }
        checked_y = checked + map.tile_size;
    }
    hit
}

impl AABB {
    /// Builds a box of extent `fullsize` for an entity whose top-left
    /// position is `center`, with a fixed local `offset`; all contact
    /// flags start clear.
    pub fn new(fullsize: Vector2, center: Vector2, offset: Vector2) -> (r: AABB)
        requires
            fullsize.x >= 0,
            fullsize.y >= 0,
            center.x + fullsize.x / 2 <= i64::MAX,
            center.y + fullsize.y / 2 <= i64::MAX,
        ensures
            r.fullsize == fullsize,
            r.halfsize.x == fullsize.x as int / 2,
            r.halfsize.y == fullsize.y as int / 2,
            r.offset == offset,
            r.center.x == center.x + fullsize.x as int / 2,
            r.center.y == center.y + fullsize.y as int / 2,
            !r.pushed_right_wall && !r.pushes_right_wall,
            !r.pushed_left_wall && !r.pushes_left_wall,
            !r.pushed_up_wall && !r.pushes_up_wall,
            !r.pushed_down_wall && !r.pushes_down_wall,
    {
        proof {
            lemma_div_trunc_bound(fullsize.x as int, 2);
            lemma_div_trunc_bound(fullsize.y as int, 2);
        }
        let halfsize = Vector2 { x: fullsize.x / 2, y: fullsize.y / 2 };
        AABB {
            halfsize,
            fullsize,
            center: Vector2 { x: center.x + halfsize.x, y: center.y + halfsize.y },
            offset,
            pushed_right_wall: false,
            pushes_right_wall: false,
            pushed_left_wall: false,
            pushes_left_wall: false,
            pushed_up_wall: false,
            pushes_up_wall: false,
            pushed_down_wall: false,
            pushes_down_wall: false,
        }
    }

    /// Recomputes the stored center for an entity now at `center`; must be
    /// called whenever the position changes, so the center is never stale.
    pub fn set_center(&mut self, center: Vector2)
        requires
            i64::MIN <= center.x + old(self).halfsize.x <= i64::MAX,
            i64::MIN <= center.x + old(self).halfsize.x + old(self).offset.x <= i64::MAX,
            i64::MIN <= center.y + old(self).halfsize.y <= i64::MAX,
            i64::MIN <= center.y + old(self).halfsize.y + old(self).offset.y <= i64::MAX,
        ensures
            *final(self) == recentered(*old(self), center),
    {
        self.center = Vector2 {
            x: center.x + self.halfsize.x + self.offset.x,
            y: center.y + self.halfsize.y + self.offset.y,
        };
    }

    pub(crate) fn set_pushes_right_wall(&mut self, pushes_right_wall: bool)
        ensures
            *final(self) == with_pushes_right(*old(self), pushes_right_wall),
    {
        self.pushed_right_wall = self.pushes_right_wall;
        self.pushes_right_wall = pushes_right_wall;
    }

    pub(crate) fn set_pushes_left_wall(&mut self, pushes_left_wall: bool)
        ensures
            *final(self) == with_pushes_left(*old(self), pushes_left_wall),
    {
        self.pushed_left_wall = self.pushes_left_wall;
        self.pushes_left_wall = pushes_left_wall;
    }

    pub(crate) fn set_pushes_up_wall(&mut self, pushes_up_wall: bool)
        ensures
            *final(self) == with_pushes_up(*old(self), pushes_up_wall),
    {
        self.pushed_up_wall = self.pushes_up_wall;
        self.pushes_up_wall = pushes_up_wall;
    }

    pub(crate) fn set_pushes_down_wall(&mut self, pushes_down_wall: bool)
        ensures
            *final(self) == with_pushes_down(*old(self), pushes_down_wall),
    {
        self.pushed_down_wall = self.pushes_down_wall;
        self.pushes_down_wall = pushes_down_wall;
    }

    /// Whether this box and `other` overlap or touch: their center
    /// distance is within the sum of their half extents on both axes.
    pub fn overlaps(&self, other: AABB) -> (r: bool)
        requires
            -POS_LIMIT <= self.center.x <= POS_LIMIT,
            -POS_LIMIT <= self.center.y <= POS_LIMIT,
            -POS_LIMIT <= other.center.x <= POS_LIMIT,
            -POS_LIMIT <= other.center.y <= POS_LIMIT,
            0 <= self.halfsize.x <= SIZE_LIMIT,
            0 <= self.halfsize.y <= SIZE_LIMIT,
            0 <= other.halfsize.x <= SIZE_LIMIT,
            0 <= other.halfsize.y <= SIZE_LIMIT,
        ensures
            r == {
                let dx = self.center.x - other.center.x;
                let dy = self.center.y - other.center.y;
                (if dx >= 0 {
                    dx
                } else {
                    -dx
                }) <= self.halfsize.x + other.halfsize.x && (if dy >= 0 {
                    dy
                } else {
                    -dy
                }) <= self.halfsize.y + other.halfsize.y
            },
    {
        let dx = self.center.x - other.center.x;
        let dx_abs = if dx >= 0 {
            dx
        } else {
            -dx
        };
        if dx_abs > self.halfsize.x + other.halfsize.x {
            return false;
        }
        let dy = self.center.y - other.center.y;
        let dy_abs = if dy >= 0 {
            dy
        } else {
            -dy
        };
        if dy_abs > self.halfsize.y + other.halfsize.y {
            return false;
        }
        true
    }

    /// Samples points along the right edge of the box, one tile edge
    /// apart and clamped to the far corner, and records in the right-wall
    /// flag whether any sample lands on an obstacle tile.
    pub fn collides_right_wall(
        &mut self,
        position: &Position,
        _velocity: &Vector2,
        map: &TileMap,
    )
        requires
            map.wf(),
            -POS_LIMIT <= position.current.x <= POS_LIMIT,
            -POS_LIMIT <= position.current.y <= POS_LIMIT,
            0 <= old(self).fullsize.x <= SIZE_LIMIT,
            0 <= old(self).fullsize.y <= SIZE_LIMIT,
        ensures
            *final(self) == with_pushes_right(
                *old(self),
                spec_collides_right(*map, *position, *old(self)),
            ),
    {
        let right_x = position.current.x + self.fullsize.x + 1;
        let top_y = position.current.y + 1;
        let far_y = top_y + self.fullsize.y - 2;
        let hit = probe_along_y(map, right_x, top_y, far_y);
        self.set_pushes_right_wall(hit);
    }

    /// Samples points along the left edge of the box, one tile edge apart
    /// and clamped to the far corner, and records in the left-wall flag
    /// whether any sample lands on an obstacle tile.
    pub fn collides_left_wall(&mut self, position: &Position, _velocity: &Vector2, map: &TileMap)
        requires
            map.wf(),
            -POS_LIMIT <= position.current.x <= POS_LIMIT,
            -POS_LIMIT <= position.current.y <= POS_LIMIT,
            0 <= old(self).fullsize.x <= SIZE_LIMIT,
            0 <= old(self).fullsize.y <= SIZE_LIMIT,
        ensures
            *final(self) == with_pushes_left(
                *old(self),
                spec_collides_left(*map, *position, *old(self)),
            ),
    {
        let left_x = position.current.x - 1;
        let top_y = position.current.y + 1;
        let far_y = top_y + self.fullsize.y - 2;
        let hit = probe_along_y(map, left_x, top_y, far_y);
        self.set_pushes_left_wall(hit);
    }

    /// Samples points along the top edge of the box, one tile edge apart
    /// and clamped to the far corner, and records in the up-wall flag
    /// whether any sample lands on an obstacle tile.
    pub fn collides_up_wall(&mut self, position: &Position, _velocity: &Vector2, map: &TileMap)
        requires
            map.wf(),
            -POS_LIMIT <= position.current.x <= POS_LIMIT,
            -POS_LIMIT <= position.current.y <= POS_LIMIT,
            0 <= old(self).fullsize.x <= SIZE_LIMIT,
            0 <= old(self).fullsize.y <= SIZE_LIMIT,
        ensures
            *final(self) == with_pushes_up(
                *old(self),
                spec_collides_up(*map, *position, *old(self)),
            ),
    {
        let top_left_x = position.current.x + 1;
        let top_y = position.current.y - 1;
        let far_x = top_left_x + self.fullsize.x - 2;
        let hit = probe_along_x(map, top_left_x, top_y, far_x);
        self.set_pushes_up_wall(hit);
    }

    /// Samples points along the bottom edge of the box, one tile edge
    /// apart and clamped to the far corner, and records in the down-wall
    /// flag whether any sample lands on an obstacle tile.
    pub fn collides_down_wall(&mut self, position: &Position, _velocity: &Vector2, map: &TileMap)
        requires
            map.wf(),
            -POS_LIMIT <= position.current.x <= POS_LIMIT,
            -POS_LIMIT <= position.current.y <= POS_LIMIT,
            0 <= old(self).fullsize.x <= SIZE_LIMIT,
            0 <= old(self).fullsize.y <= SIZE_LIMIT,
        ensures
            *final(self) == with_pushes_down(
                *old(self),
                spec_collides_down(*map, *position, *old(self)),
            ),
    {
        let bottom_left_x = position.current.x + 1;
        let bottom_left_y = position.current.y + self.fullsize.y + 1;
        let bottom_right_x = bottom_left_x + self.fullsize.x - 2;
        let hit = probe_along_x(map, bottom_left_x, bottom_left_y, bottom_right_x);
        self.set_pushes_down_wall(hit);
    }
}

} // verus!
