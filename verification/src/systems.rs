//! The per-frame passes of the simulation, in their fixed order: mapping
//! directional input to a target velocity, then moving each entity with
//! axis-sequential collision resolution against the tile grid.
//!
//! The resolver applies the x displacement alone, tests, reverts position
//! and zeroes velocity on a hit, then resolves the y displacement the same
//! way from the already-resolved x position. Resolving the axes one after
//! the other is what prevents diagonal tunneling through a corner.
//!
//! Displacements are rounded once, to the nearest whole world unit, when
//! the velocity is scaled by the elapsed time; positions accumulate whole
//! units only, so no sub-unit drift can build up between frames.

use vstd::prelude::*;

verus! {

use crate::components::{
    lemma_diag_scale_bound, norm_x, norm_y, pos_with_x, pos_with_y, recentered, vel_with_x,
    vel_with_y, with_pushes_down, with_pushes_left, with_pushes_right, with_pushes_up, Position,
    Velocity, AABB, POS_LIMIT, SIZE_LIMIT, VEL_LIMIT,
};
use crate::geom::{
    div_round, lemma_div_round_bound, lemma_div_trunc_in_cell, lemma_div_trunc_ordered, round_div,
};
use crate::resources::{DeltaTime, InputControls, TileMap, WORLD_LIMIT};

/// The movement-and-collision pass.
pub struct MoveSystem;

/// The input-to-velocity pass.
pub struct ControlableSystem;

/// Strict rectangle overlap: the rectangles share interior area; edges
/// that merely touch do not count, so a box resting flush against a wall
/// does not stick.
pub open spec fn rects_overlap(
    a_left: int,
    a_right: int,
    a_up: int,
    a_down: int,
    b_left: int,
    b_right: int,
    b_up: int,
    b_down: int,
) -> bool {
    a_left < b_right && a_right > b_left && a_up < b_down && a_down > b_up
}

/// A tile index range endpoint clamped from below at zero.
pub open spec fn scan_lo(t: int) -> int {
    if t < 0 {
        0
    } else {
        t
    }
}

/// A tile index range endpoint clamped from above at the grid dimension.
pub open spec fn scan_hi(t: int, limit: int) -> int {
    if t > limit {
        limit
    } else {
        t
    }
}

/// Whether tile `(i, j)` strictly overlaps the world rectangle
/// `[l, r] x [u, d]`.
pub open spec fn tile_overlaps_box(
    m: TileMap,
    i: int,
    j: int,
    l: int,
    r: int,
    u: int,
    d: int,
) -> bool {
    rects_overlap(
        l,
        r,
        u,
        d,
        m.spec_tile_world_x(i),
        m.spec_tile_world_x(i) + m.tile_size,
        m.spec_tile_world_y(j),
        m.spec_tile_world_y(j) + m.tile_size,
    )
}

/// The range-scan overlap test: some tile in the index rectangle spanned
/// by the box's edges (clamped to the grid) is an obstacle and strictly
/// overlaps the box. Edges are converted to indices through the grid's own
/// point-to-index mapping, so a non-zero origin is handled coherently.
pub open spec fn spec_tilemap_collision(m: TileMap, pos: Position, bb: AABB) -> bool {
    let l = pos.current.x as int;
    let r = pos.current.x + bb.fullsize.x;
    let u = pos.current.y as int;
    let d = pos.current.y + bb.fullsize.y;
    exists|i: int, j: int|
        scan_lo(m.spec_tile_x_at(l)) <= i <= scan_hi(m.spec_tile_x_at(r), m.width as int)
            && scan_lo(m.spec_tile_y_at(u)) <= j <= scan_hi(m.spec_tile_y_at(d), m.height as int)
            && #[trigger] m.spec_is_obstacle(i, j) && tile_overlaps_box(m, i, j, l, r, u, d)
}

impl MoveSystem {
    /// Scans every tile the box of `pos` could touch and reports whether
    /// any obstacle tile strictly overlaps it.
    #[verifier::loop_isolation(false)]
    pub fn tilemap_collision(map: &TileMap, pos: &Position, aabb: &AABB) -> (r: bool)
        requires
            map.wf(),
            -WORLD_LIMIT <= pos.current.x,
            pos.current.x + aabb.fullsize.x <= WORLD_LIMIT,
            -WORLD_LIMIT <= pos.current.y,
            pos.current.y + aabb.fullsize.y <= WORLD_LIMIT,
            0 <= aabb.fullsize.x <= SIZE_LIMIT,
            0 <= aabb.fullsize.y <= SIZE_LIMIT,
        ensures
            r == spec_tilemap_collision(*map, *pos, *aabb),
    {
        let ab_left = pos.current.x;
        let ab_right = pos.current.x + aabb.fullsize.x;
        let ab_up = pos.current.y;
        let ab_down = pos.current.y + aabb.fullsize.y;

        let mut left_tile = map.get_tile_x_at_point(ab_left);
        let mut right_tile = map.get_tile_x_at_point(ab_right);
        let mut top_tile = map.get_tile_y_at_point(ab_up);
        let mut down_tile = map.get_tile_y_at_point(ab_down);

        if left_tile < 0 {
            left_tile = 0;
        }
        if right_tile > map.width as i64 {
            right_tile = map.width as i64;
        }
        if top_tile < 0 {
            top_tile = 0;
        }
        if down_tile > map.height as i64 {
            down_tile = map.height as i64;
        }

        let mut tile_index_x = left_tile;
        while tile_index_x <= right_tile
            invariant
                left_tile <= tile_index_x,
                forall|a: int, b: int|
                    left_tile <= a < tile_index_x && top_tile <= b <= down_tile ==> !(
                    #[trigger] map.spec_is_obstacle(a, b) && tile_overlaps_box(
                        *map,
                        a,
                        b,
                        ab_left as int,
                        ab_right as int,
                        ab_up as int,
                        ab_down as int,
                    )),
            decreases right_tile + 1 - tile_index_x,
        {
            let mut tile_index_y = top_tile;
            while tile_index_y <= down_tile
                invariant
                    left_tile <= tile_index_x <= right_tile,
                    top_tile <= tile_index_y,
                    forall|a: int, b: int|
                        left_tile <= a < tile_index_x && top_tile <= b <= down_tile ==> !(
                        #[trigger] map.spec_is_obstacle(a, b) && tile_overlaps_box(
                            *map,
                            a,
                            b,
                            ab_left as int,
                            ab_right as int,
                            ab_up as int,
                            ab_down as int,
                        )),
                    forall|b: int|
                        top_tile <= b < tile_index_y ==> !(#[trigger] map.spec_is_obstacle(
                            tile_index_x as int,
                            b,
                        ) && tile_overlaps_box(
                            *map,
                            tile_index_x as int,
                            b,
                            ab_left as int,
                            ab_right as int,
                            ab_up as int,
                            ab_down as int,
                        )),
                decreases down_tile + 1 - tile_index_y,
            {
                if map.is_obstacle(tile_index_x, tile_index_y) {
                    let tile_pos = map.get_map_tile_position(tile_index_x, tile_index_y);
                    proof {
                        assert(0 <= tile_index_x * map.tile_size <= 0x1_0000_0000_0000)
                            by (nonlinear_arith)
                            requires
                                0 <= tile_index_x <= 0x1_0000,
                                0 < map.tile_size <= 0x10_0000,
                        ;
                        assert(0 <= tile_index_y * map.tile_size <= 0x1_0000_0000_0000)
                            by (nonlinear_arith)
                            requires
                                0 <= tile_index_y <= 0x1_0000,
                                0 < map.tile_size <= 0x10_0000,
                        ;
                    }

                    let tl_left = tile_pos.x;
                    let tl_right = tile_pos.x + map.tile_size;
                    let tl_up = tile_pos.y;
                    let tl_down = tile_pos.y + map.tile_size;

                    let left_colide = ab_left < tl_right;
                    let right_colide = ab_right > tl_left;
                    let up_colide = ab_up < tl_down;
                    let down_colide = ab_down > tl_up;

                    let collision = left_colide && right_colide && up_colide && down_colide;

                    if collision {
                        proof {
                            assert(map.spec_is_obstacle(tile_index_x as int, tile_index_y as int)
                                && tile_overlaps_box(
                                *map,
                                tile_index_x as int,
                                tile_index_y as int,
                                ab_left as int,
                                ab_right as int,
                                ab_up as int,
                                ab_down as int,
                            ));
                        }
                        return true;
                    }
                }
                tile_index_y += 1;
            }
            tile_index_x += 1;
        }
        false
    }

    /// One movement step for one entity: scale the (diagonal-normalized)
    /// velocity by the elapsed time, resolve the x displacement against the
    /// grid, then the y displacement from the already-resolved x position,
    /// recompute the box center, and shift the four wall-contact flags.
    pub fn run(
        map: &TileMap,
        delta: &DeltaTime,
        vel: &mut Velocity,
        pos: &mut Position,
        aabb: &mut AABB,
    )
        requires
            map.wf(),
            delta.wf(),
            -VEL_LIMIT <= old(vel).current.x <= VEL_LIMIT,
            -VEL_LIMIT <= old(vel).current.y <= VEL_LIMIT,
            -POS_LIMIT <= old(pos).current.x <= POS_LIMIT,
            -POS_LIMIT <= old(pos).current.y <= POS_LIMIT,
            0 <= old(aabb).fullsize.x <= SIZE_LIMIT,
            0 <= old(aabb).fullsize.y <= SIZE_LIMIT,
            -SIZE_LIMIT <= old(aabb).halfsize.x <= SIZE_LIMIT,
            -SIZE_LIMIT <= old(aabb).halfsize.y <= SIZE_LIMIT,
            -SIZE_LIMIT <= old(aabb).offset.x <= SIZE_LIMIT,
            -SIZE_LIMIT <= old(aabb).offset.y <= SIZE_LIMIT,
        ensures
            ({
                let r = spec_step(*map, *delta, *old(vel), *old(pos), *old(aabb));
                &&& *final(vel) == r.0
                &&& *final(pos) == r.1
                &&& *final(aabb) == r.2
            }),
    {
        let normalized = vel.get();
        proof {
            lemma_diag_scale_bound(vel.current.x as int);
            lemma_diag_scale_bound(vel.current.y as int);
            assert(-0x100_0000_0000 <= normalized.x * delta.num <= 0x100_0000_0000)
                by (nonlinear_arith)
                requires
                    -VEL_LIMIT <= normalized.x <= VEL_LIMIT,
                    0 <= delta.num <= 0x10_0000,
            ;
            assert(-0x100_0000_0000 <= normalized.y * delta.num <= 0x100_0000_0000)
                by (nonlinear_arith)
                requires
                    -VEL_LIMIT <= normalized.y <= VEL_LIMIT,
                    0 <= delta.num <= 0x10_0000,
            ;
            lemma_div_round_bound(normalized.x * delta.num, delta.den as int);
            lemma_div_round_bound(normalized.y * delta.num, delta.den as int);
        }
        let delta_vel_x = round_div(normalized.x * delta.num, delta.den);
        let delta_vel_y = round_div(normalized.y * delta.num, delta.den);

        let old_pos_x = pos.current.x;
        pos.x(delta_vel_x);
        let blocked_x = delta_vel_x != 0 && MoveSystem::tilemap_collision(map, pos, aabb);
        if blocked_x {
            vel.x(0);
            pos.set_x(old_pos_x);
        }

        let old_pos_y = pos.current.y;
        pos.y(delta_vel_y);
        let blocked_y = delta_vel_y != 0 && MoveSystem::tilemap_collision(map, pos, aabb);
        if blocked_y {
            vel.y(0);
            pos.set_y(old_pos_y);
        }

        aabb.set_center(pos.current);
        aabb.set_pushes_right_wall(blocked_x && delta_vel_x > 0);
        aabb.set_pushes_left_wall(blocked_x && delta_vel_x < 0);
        aabb.set_pushes_down_wall(blocked_y && delta_vel_y > 0);
        aabb.set_pushes_up_wall(blocked_y && delta_vel_y < 0);
    }
}

/// The x displacement of one frame: the diagonal-normalized x velocity
/// scaled by the elapsed time, rounded to the nearest whole unit.
pub open spec fn spec_delta_x(v: Velocity, dt: DeltaTime) -> int {
    div_round(norm_x(v.current) * dt.num, dt.den as int)
}

/// The y displacement of one frame.
pub open spec fn spec_delta_y(v: Velocity, dt: DeltaTime) -> int {
    div_round(norm_y(v.current) * dt.num, dt.den as int)
}

/// One movement step for one entity, as a function of the old state: the
/// x axis is resolved first (move, test, revert and zero velocity on a
/// hit), then the y axis from the already-resolved x position; a zero
/// displacement on an axis never blocks. The box is recentered at the
/// committed position and each wall-contact flag is shifted and rewritten:
/// a side pushes when its axis was blocked moving toward that side.
pub open spec fn spec_step(m: TileMap, dt: DeltaTime, v: Velocity, p: Position, bb: AABB) -> (
    Velocity,
    Position,
    AABB,
) {
    let dx = spec_delta_x(v, dt);
    let dy = spec_delta_y(v, dt);
    let moved_x = pos_with_x(p, p.current.x + dx);
    let bx = dx != 0 && spec_tilemap_collision(m, moved_x, bb);
    let v1 = if bx {
        vel_with_x(v, 0)
    } else {
        v
    };
    let p1 = if bx {
        pos_with_x(moved_x, p.current.x as int)
    } else {
        moved_x
    };
    let moved_y = pos_with_y(p1, p1.current.y + dy);
    let by = dy != 0 && spec_tilemap_collision(m, moved_y, bb);
    let v2 = if by {
        vel_with_y(v1, 0)
    } else {
        v1
    };
    let p2 = if by {
        pos_with_y(moved_y, p1.current.y as int)
    } else {
        moved_y
    };
    let centered = recentered(bb, p2.current);
    let flagged = with_pushes_up(
        with_pushes_down(
            with_pushes_left(
                with_pushes_right(centered, bx && dx > 0),
                bx && dx < 0,
            ),
            by && dy > 0,
        ),
        by && dy < 0,
    );
    (v2, p2, flagged)
}

/// The x velocity the input flags ask for: the two directions of an axis
/// are mutually exclusive, so when neither or both are held the axis
/// velocity is zero.
pub open spec fn spec_control_x(input: InputControls, speed: int) -> int {
    if input.left && !input.right {
        -speed
    } else if input.right && !input.left {
        speed
    } else {
        0
    }
}

/// The y velocity the input flags ask for: zero when neither or both of
/// up and down are held.
pub open spec fn spec_control_y(input: InputControls, speed: int) -> int {
    if input.up && !input.down {
        -speed
    } else if input.down && !input.up {
        speed
    } else {
        0
    }
}

impl ControlableSystem {
    /// Maps the directional input flags to a target velocity of magnitude
    /// `speed` per active axis, overwriting both axes of `vel`; an axis
    /// whose two directions are both held, or both released, gets zero.
    pub fn run(input: &InputControls, speed: i64, vel: &mut Velocity)
        requires
            0 <= speed <= VEL_LIMIT,
        ensures
            *final(vel) == vel_with_y(
                vel_with_x(*old(vel), spec_control_x(*input, speed as int)),
                spec_control_y(*input, speed as int),
            ),
    {
        if input.left && !input.right {
            vel.x(-speed);
        } else if input.right && !input.left {
            vel.x(speed);
        } else {
            vel.x(0);
        }
        if input.up && !input.down {
            vel.y(-speed);
        } else if input.down && !input.up {
            vel.y(speed);
        } else {
            vel.y(0);
        }
    }
}

/// A box fully inside an all-empty, in-bounds rectangle of cells never
/// collides, wherever inside it the box stands — flush contact with the
/// rectangle's border included, since the overlap test is strict.
pub proof fn lemma_no_collision_in_empty_region(
    m: TileMap,
    p: Position,
    bb: AABB,
    x0: int,
    x1: int,
    y0: int,
    y1: int,
)
    requires
        m.wf(),
        0 <= bb.fullsize.x,
        0 <= bb.fullsize.y,
        0 <= x0 <= x1 < m.width,
        0 <= y0 <= y1 < m.height,
        forall|i: int, j: int| x0 <= i <= x1 && y0 <= j <= y1 ==> m.spec_is_empty(i, j),
        m.spec_tile_world_x(x0) <= p.current.x,
        p.current.x + bb.fullsize.x <= m.spec_tile_world_x(x1) + m.tile_size,
        m.spec_tile_world_y(y0) <= p.current.y,
        p.current.y + bb.fullsize.y <= m.spec_tile_world_y(y1) + m.tile_size,
    ensures
        !spec_tilemap_collision(m, p, bb),
{
    let ts = m.tile_size as int;
    let px = m.position.x as int;
    let py = m.position.y as int;
    let l = p.current.x as int;
    let r = p.current.x + bb.fullsize.x;
    let u = p.current.y as int;
    let d = p.current.y + bb.fullsize.y;

    assert((x0 + 1) * ts == x0 * ts + ts && (x1 + 1) * ts == x1 * ts + ts && (y0 + 1) * ts == y0
        * ts + ts && (y1 + 1) * ts == y1 * ts + ts) by (nonlinear_arith);

    // The scanned column range lies within [x0, x1 + 1].
    lemma_div_trunc_in_cell(x0, 0, ts);
    lemma_div_trunc_ordered(x0 * ts, l - px, ts);
    assert(m.spec_tile_x_at(l) >= x0);
    lemma_div_trunc_in_cell(x1 + 1, 0, ts);
    lemma_div_trunc_ordered(r - px, (x1 + 1) * ts, ts);
    assert(m.spec_tile_x_at(r) <= x1 + 1);

    // The scanned row range lies within [y0, y1 + 1].
    lemma_div_trunc_in_cell(y0, 0, ts);
    lemma_div_trunc_ordered(y0 * ts, u - py, ts);
    assert(m.spec_tile_y_at(u) >= y0);
    lemma_div_trunc_in_cell(y1 + 1, 0, ts);
    lemma_div_trunc_ordered(d - py, (y1 + 1) * ts, ts);
    assert(m.spec_tile_y_at(d) <= y1 + 1);

    assert forall|i: int, j: int|
        scan_lo(m.spec_tile_x_at(l)) <= i <= scan_hi(m.spec_tile_x_at(r), m.width as int) && scan_lo(
            m.spec_tile_y_at(u),
        ) <= j <= scan_hi(m.spec_tile_y_at(d), m.height as int) implies !(
    #[trigger] m.spec_is_obstacle(i, j) && tile_overlaps_box(m, i, j, l, r, u, d)) by {
        assert((i + 1) * ts == i * ts + ts && (j + 1) * ts == j * ts + ts) by (nonlinear_arith);
        if x0 <= i <= x1 && y0 <= j <= y1 {
            assert(m.spec_is_empty(i, j));
        } else if i == x1 + 1 {
            assert(m.spec_tile_world_x(i) >= r);
        } else {
            assert(j == y1 + 1);
            assert(m.spec_tile_world_y(j) >= d);
        }
    }
}

/// Flush contact is not a collision: a box standing inside an empty
/// region with its leading right edge exactly on the boundary of the next
/// column — whatever that column holds — reports no hit, because the
/// overlap test is strict.
pub proof fn lemma_flush_contact_no_collision(
    m: TileMap,
    p: Position,
    bb: AABB,
    x0: int,
    x1: int,
    y0: int,
    y1: int,
)
    requires
        m.wf(),
        0 <= bb.fullsize.x,
        0 <= bb.fullsize.y,
        0 <= x0 <= x1 < m.width,
        0 <= y0 <= y1 < m.height,
        forall|i: int, j: int| x0 <= i <= x1 && y0 <= j <= y1 ==> m.spec_is_empty(i, j),
        m.spec_tile_world_x(x0) <= p.current.x,
        p.current.x + bb.fullsize.x == m.spec_tile_world_x(x1) + m.tile_size,
        m.spec_tile_world_y(y0) <= p.current.y,
        p.current.y + bb.fullsize.y <= m.spec_tile_world_y(y1) + m.tile_size,
    ensures
        !spec_tilemap_collision(m, p, bb),
{
    lemma_no_collision_in_empty_region(m, p, bb, x0, x1, y0, y1);
}

/// One unit past flush is a collision: if tile `(i, j)` is an obstacle in
/// or on the edge of the grid, the box's right edge reaches exactly one
/// unit into that tile's column, and the vertical spans strictly overlap,
/// the range scan reports a hit.
pub proof fn lemma_penetration_collides(m: TileMap, p: Position, bb: AABB, i: int, j: int)
    requires
        m.wf(),
        1 <= bb.fullsize.x,
        1 <= bb.fullsize.y,
        0 <= i <= m.width,
        0 <= j <= m.height,
        m.spec_is_obstacle(i, j),
        p.current.x + bb.fullsize.x == m.spec_tile_world_x(i) + 1,
        p.current.y < m.spec_tile_world_y(j) + m.tile_size,
        p.current.y + bb.fullsize.y > m.spec_tile_world_y(j),
    ensures
        spec_tilemap_collision(m, p, bb),
{
    let ts = m.tile_size as int;
    let px = m.position.x as int;
    let py = m.position.y as int;
    let l = p.current.x as int;
    let r = p.current.x + bb.fullsize.x;
    let u = p.current.y as int;
    let d = p.current.y + bb.fullsize.y;

    assert((j + 1) * ts == j * ts + ts) by (nonlinear_arith);

    // Column i is inside the scanned column range.
    lemma_div_trunc_in_cell(i, 0, ts);
    lemma_div_trunc_ordered(l - px, i * ts, ts);
    assert(m.spec_tile_x_at(l) <= i);
    lemma_div_trunc_ordered(i * ts, r - px, ts);
    assert(m.spec_tile_x_at(r) >= i);

    // Row j is inside the scanned row range.
    lemma_div_trunc_in_cell(j, ts - 1, ts);
    lemma_div_trunc_ordered(u - py, j * ts + (ts - 1), ts);
    assert(m.spec_tile_y_at(u) <= j);
    lemma_div_trunc_in_cell(j, 0, ts);
    lemma_div_trunc_ordered(j * ts, d - py, ts);
    assert(m.spec_tile_y_at(d) >= j);

    assert(m.spec_is_obstacle(i, j) && tile_overlaps_box(m, i, j, l, r, u, d));
}

/// Sequential axis resolution: when the x displacement is blocked, the
/// step zeroes the x velocity and reverts the x position; the y axis is
/// then resolved on its own, from the reverted x position, in the same
/// step — blocked the same way or committed in full.
pub proof fn lemma_sequential_axis_resolution(
    m: TileMap,
    dt: DeltaTime,
    v: Velocity,
    p: Position,
    bb: AABB,
)
    requires
        spec_delta_x(v, dt) != 0,
        spec_tilemap_collision(m, pos_with_x(p, p.current.x + spec_delta_x(v, dt)), bb),
        i64::MIN <= p.current.y + spec_delta_y(v, dt) <= i64::MAX,
    ensures
        spec_step(m, dt, v, p, bb).0.current.x == 0,
        spec_step(m, dt, v, p, bb).1.current.x == p.current.x,
        ({
            let dy = spec_delta_y(v, dt);
            let reverted = pos_with_x(pos_with_x(p, p.current.x + spec_delta_x(v, dt)), p.current.x as int);
            let blocked_y = dy != 0 && spec_tilemap_collision(m, pos_with_y(reverted, reverted.current.y + dy), bb);
            &&& (blocked_y ==> spec_step(m, dt, v, p, bb).0.current.y == 0 && spec_step(
                m,
                dt,
                v,
                p,
                bb,
            ).1.current.y == p.current.y)
            &&& (!blocked_y ==> spec_step(m, dt, v, p, bb).1.current.y == p.current.y + dy)
        }),
{
}

/// One movable entity: its motion state, bounding box, and whether the
/// input pass drives it.
#[derive(Clone, Copy, Debug, PartialEq, Eq, Structural)]
pub struct Entity {
    pub position: Position,
    pub velocity: Velocity,
    pub aabb: AABB,
    pub controlled: bool,
}

/// The bounds under which one frame of simulation cannot overflow.
pub open spec fn entity_in_range(e: Entity) -> bool {
    &&& -VEL_LIMIT <= e.velocity.current.x <= VEL_LIMIT
    &&& -VEL_LIMIT <= e.velocity.current.y <= VEL_LIMIT
    &&& -POS_LIMIT <= e.position.current.x <= POS_LIMIT
    &&& -POS_LIMIT <= e.position.current.y <= POS_LIMIT
    &&& 0 <= e.aabb.fullsize.x <= SIZE_LIMIT
    &&& 0 <= e.aabb.fullsize.y <= SIZE_LIMIT
    &&& -SIZE_LIMIT <= e.aabb.halfsize.x <= SIZE_LIMIT
    &&& -SIZE_LIMIT <= e.aabb.halfsize.y <= SIZE_LIMIT
    &&& -SIZE_LIMIT <= e.aabb.offset.x <= SIZE_LIMIT
    &&& -SIZE_LIMIT <= e.aabb.offset.y <= SIZE_LIMIT
}

/// One frame for one entity: the input pass first (only if the entity is
/// input-controlled), then the movement step.
pub open spec fn spec_advance_entity(
    m: TileMap,
    dt: DeltaTime,
    input: InputControls,
    speed: int,
    e: Entity,
) -> Entity {
    let v0 = if e.controlled {
        vel_with_y(
            vel_with_x(e.velocity, spec_control_x(input, speed)),
            spec_control_y(input, speed),
        )
    } else {
        e.velocity
    };
    let s = spec_step(m, dt, v0, e.position, e.aabb);
    Entity { position: s.1, velocity: s.0, aabb: s.2, controlled: e.controlled }
}

/// Advances every entity by one frame, in place. Entities are resolved
/// independently — the grid is read-only and entities do not collide with
/// each other — so the order between them does not matter.
#[verifier::loop_isolation(false)]
pub fn advance(
    map: &TileMap,
    delta: &DeltaTime,
    input: &InputControls,
    speed: i64,
    entities: &mut Vec<Entity>,
)
    requires
        map.wf(),
        delta.wf(),
        0 <= speed <= VEL_LIMIT,
        forall|k: int|
            0 <= k < old(entities)@.len() ==> entity_in_range(#[trigger] old(entities)@[k]),
    ensures
        final(entities)@.len() == old(entities)@.len(),
        forall|k: int|
            0 <= k < old(entities)@.len() ==> final(entities)@[k] == spec_advance_entity(
                *map,
                *delta,
                *input,
                speed as int,
                #[trigger] old(entities)@[k],
            ),
{
    let n = entities.len();
    let mut k: usize = 0;
    while k < n
        invariant
            k <= n,
            entities@.len() == n,
            forall|t: int| k <= t < n ==> entities@[t] == old(entities)@[t],
            forall|t: int|
                0 <= t < k ==> entities@[t] == spec_advance_entity(
                    *map,
                    *delta,
                    *input,
                    speed as int,
                    #[trigger] old(entities)@[t],
                ),
        decreases n - k,
    {
        let mut e = entities[k];
        if e.controlled {
            ControlableSystem::run(input, speed, &mut e.velocity);
        }
        MoveSystem::run(map, delta, &mut e.velocity, &mut e.position, &mut e.aabb);
        entities[k] = e;
        k += 1;
    }
}

} // verus!
