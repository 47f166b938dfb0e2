use platformer_core::components::{Position, Velocity, AABB};
use platformer_core::geom::Vector2;
use platformer_core::resources::{
    DeltaTime, Direction, InputControls, MapError, PositionVector, TileMap, TileType, TimeError,
};
use platformer_core::systems::{advance, ControlableSystem, Entity, MoveSystem};

fn empty_row(width: usize) -> Vec<TileType> {
    let mut row = Vec::new();
    for _ in 0..width {
        row.push(TileType::Empty);
    }
    row
}

/// A 5x5 map, empty except for a concave corner: an obstacle at column 2 of
/// row 1 and an obstacle at column 1 of row 2.
fn corner_map() -> TileMap {
    let mut tiles = Vec::new();
    for _ in 0..5 {
        tiles.push(empty_row(5));
    }
    tiles[1][2] = TileType::Block;
    tiles[2][1] = TileType::Block;
    TileMap::new(tiles, PositionVector { x: 0, y: 0 }, 32).unwrap()
}

fn player_at(x: i64, y: i64, controlled: bool) -> Entity {
    Entity {
        position: Position::new(Vector2::new(x, y)),
        velocity: Velocity::new(Vector2::new(0, 0)),
        aabb: AABB::new(Vector2::new(16, 16), Vector2::new(x, y), Vector2::new(0, 0)),
        controlled,
    }
}

#[test]
fn map_construction_validates_config() {
    let ok = TileMap::new(
        vec![empty_row(3), empty_row(3)],
        PositionVector { x: 0, y: 0 },
        16,
    )
    .unwrap();
    assert_eq!(ok.width, 3);
    assert_eq!(ok.height, 2);
    assert_eq!(ok.tile_size, 16);

    assert_eq!(
        TileMap::new(vec![empty_row(3)], PositionVector { x: 0, y: 0 }, 0).unwrap_err(),
        MapError::NonPositiveTileSize
    );
    assert_eq!(
        TileMap::new(vec![empty_row(3)], PositionVector { x: 0, y: 0 }, -4).unwrap_err(),
        MapError::NonPositiveTileSize
    );
    assert_eq!(
        TileMap::new(Vec::new(), PositionVector { x: 0, y: 0 }, 16).unwrap_err(),
        MapError::EmptyGrid
    );
    assert_eq!(
        TileMap::new(vec![Vec::new()], PositionVector { x: 0, y: 0 }, 16).unwrap_err(),
        MapError::EmptyGrid
    );
    assert_eq!(
        TileMap::new(
            vec![empty_row(3), empty_row(2)],
            PositionVector { x: 0, y: 0 },
            16
        )
        .unwrap_err(),
        MapError::RaggedRows
    );
    assert_eq!(
        TileMap::new(vec![empty_row(3)], PositionVector { x: 0, y: 0 }, 0x20_0000).unwrap_err(),
        MapError::OutOfRange
    );
    assert_eq!(
        TileMap::new(
            vec![empty_row(3)],
            PositionVector {
                x: 0x200_0000_0000,
                y: 0
            },
            16
        )
        .unwrap_err(),
        MapError::OutOfRange
    );
}

#[test]
fn delta_time_validates_input() {
    let dt = DeltaTime::new(1, 60).unwrap();
    assert_eq!(dt.num, 1);
    assert_eq!(dt.den, 60);
    assert_eq!(DeltaTime::new(-1, 60).unwrap_err(), TimeError::NegativeElapsed);
    assert_eq!(
        DeltaTime::new(1, 0).unwrap_err(),
        TimeError::NonPositiveDenominator
    );
    assert_eq!(
        DeltaTime::new(1, -3).unwrap_err(),
        TimeError::NonPositiveDenominator
    );
    assert_eq!(
        DeltaTime::new(0x20_0000, 60).unwrap_err(),
        TimeError::OutOfRange
    );
}

#[test]
fn demo_map_layout() {
    let map = TileMap::demo();
    assert_eq!(map.width, 25);
    assert_eq!(map.height, 19);
    assert_eq!(map.tile_size, 32);
    assert_eq!(map.get_tile(0, 0), TileType::Block);
    assert_eq!(map.get_tile(24, 18), TileType::Block);
    assert_eq!(map.get_tile(5, 15), TileType::Block);
    assert_eq!(map.get_tile(6, 15), TileType::Slope45);
    assert!(map.is_slope(7, 16));
    assert!(map.is_slope(8, 17));
    assert_eq!(map.get_tile(12, 9), TileType::Empty);
    assert_eq!(map.get_tile(25, 0), TileType::Block);
}

#[test]
fn tile_index_round_trip_within_cell() {
    let map = TileMap::demo();
    let corner = map.get_map_tile_position(3, 2);
    assert_eq!(corner, Vector2::new(96, 64));
    assert_eq!(
        map.get_tile_at_point(Vector2::new(corner.x + 31, corner.y + 31)),
        Vector2::new(3, 2)
    );
    assert_eq!(
        map.get_tile_at_point(Vector2::new(corner.x + 32, corner.y)),
        Vector2::new(4, 2)
    );
}

#[test]
fn tile_index_truncates_toward_zero() {
    let map = TileMap::demo();
    assert_eq!(map.get_tile_x_at_point(-5), 0);
    assert_eq!(map.get_tile_x_at_point(-17), 0);
    assert_eq!(map.get_tile_x_at_point(-33), -1);
    assert_eq!(map.get_tile_y_at_point(33), 1);
}

#[test]
fn no_collision_inside_empty_region() {
    let map = TileMap::demo();
    let aabb = AABB::new(Vector2::new(16, 16), Vector2::new(100, 100), Vector2::new(0, 0));
    for step in 0..8 {
        let pos = Position::new(Vector2::new(100 + step * 10, 100 + step * 5));
        assert!(!MoveSystem::tilemap_collision(&map, &pos, &aabb));
    }
}

#[test]
fn flush_contact_is_not_a_collision_but_one_unit_deeper_is() {
    let map = TileMap::demo();
    let aabb = AABB::new(Vector2::new(16, 16), Vector2::new(752, 200), Vector2::new(0, 0));
    // Right edge exactly on the wall column boundary at x = 768: no hit.
    let flush = Position::new(Vector2::new(752, 200));
    assert!(!MoveSystem::tilemap_collision(&map, &flush, &aabb));
    // One world unit further: the box reaches into the wall column.
    let deeper = Position::new(Vector2::new(753, 200));
    assert!(MoveSystem::tilemap_collision(&map, &deeper, &aabb));
}

#[test]
fn diagonal_input_is_normalized() {
    let vel = Velocity::new(Vector2::new(600, 600));
    let scaled = vel.get();
    assert_eq!(scaled, Vector2::new(424, 424));
    // The squared magnitude stays within a fraction of the axial one.
    let diagonal_sq = 2 * 424 * 424;
    let axial_sq = 600 * 600;
    assert!(diagonal_sq <= axial_sq);
    assert!((axial_sq - diagonal_sq) * 100 <= axial_sq);

    let axial = Velocity::new(Vector2::new(600, 0));
    assert_eq!(axial.get(), Vector2::new(600, 0));
    let mixed = Velocity::new(Vector2::new(-600, 600));
    assert_eq!(mixed.get(), Vector2::new(-424, 424));
}

#[test]
fn concave_corner_blocks_both_axes_independently() {
    let map = corner_map();
    let dt = DeltaTime::new(1, 60).unwrap();
    let mut vel = Velocity::new(Vector2::new(600, 600));
    let mut pos = Position::new(Vector2::new(48, 48));
    let mut aabb = AABB::new(Vector2::new(16, 16), Vector2::new(48, 48), Vector2::new(0, 0));

    MoveSystem::run(&map, &dt, &mut vel, &mut pos, &mut aabb);

    // Both axes were blocked: position reverted, velocity zeroed, and the
    // shadow still shows the attempted move of 7 units per axis.
    assert_eq!(pos.current, Vector2::new(48, 48));
    assert_eq!(pos.previous, Vector2::new(55, 55));
    assert_eq!(vel.current, Vector2::new(0, 0));
    assert!(aabb.pushes_right_wall);
    assert!(aabb.pushes_down_wall);
    assert!(!aabb.pushes_left_wall);
    assert!(!aabb.pushes_up_wall);
    assert!(!aabb.pushed_right_wall);
}

#[test]
fn pressing_into_a_wall_for_two_frames() {
    let map = TileMap::demo();
    let dt = DeltaTime::new(1, 60).unwrap();
    let mut input = InputControls::new();
    input.on_direction_key(Direction::Right, true);
    let mut entities = vec![player_at(752, 200, true)];

    advance(&map, &dt, &input, 600, &mut entities);
    let e = &entities[0];
    assert_eq!(e.velocity.current.x, 0);
    assert_eq!(e.position.current.x, 752);
    assert!(e.aabb.pushes_right_wall);
    assert!(!e.aabb.pushed_right_wall);

    advance(&map, &dt, &input, 600, &mut entities);
    let e = &entities[0];
    assert_eq!(e.velocity.current.x, 0);
    assert_eq!(e.position.current.x, 752);
    assert!(e.aabb.pushes_right_wall);
    assert!(e.aabb.pushed_right_wall);
}

#[test]
fn uncontrolled_entity_keeps_its_velocity() {
    let map = TileMap::demo();
    let dt = DeltaTime::new(1, 60).unwrap();
    let input = InputControls::new();
    let mut entities = vec![player_at(100, 100, false)];
    entities[0].velocity = Velocity::new(Vector2::new(64, 0));

    advance(&map, &dt, &input, 600, &mut entities);
    let e = &entities[0];
    assert_eq!(e.position.current, Vector2::new(101, 100));
    assert_eq!(e.velocity.current, Vector2::new(64, 0));
}

#[test]
fn control_system_maps_input_to_velocity() {
    let mut input = InputControls::new();
    input.on_direction_key(Direction::Left, true);
    input.on_direction_key(Direction::Down, true);
    let mut vel = Velocity::new(Vector2::new(10, 20));
    ControlableSystem::run(&input, 300, &mut vel);
    assert_eq!(vel.current, Vector2::new(-300, 300));
    assert_eq!(vel.previous, Vector2::new(10, 20));

    input.on_direction_key(Direction::Left, false);
    input.on_direction_key(Direction::Down, false);
    ControlableSystem::run(&input, 300, &mut vel);
    assert_eq!(vel.current, Vector2::new(0, 0));
}

#[test]
fn opposing_keys_cancel_to_zero() {
    let mut input = InputControls::new();
    input.on_direction_key(Direction::Left, true);
    input.on_direction_key(Direction::Right, true);
    input.on_direction_key(Direction::Up, true);
    input.on_direction_key(Direction::Down, true);
    let mut vel = Velocity::new(Vector2::new(10, 20));
    ControlableSystem::run(&input, 300, &mut vel);
    assert_eq!(vel.current, Vector2::new(0, 0));

    input.on_direction_key(Direction::Left, false);
    input.on_direction_key(Direction::Down, false);
    ControlableSystem::run(&input, 300, &mut vel);
    assert_eq!(vel.current, Vector2::new(300, -300));
}

#[test]
fn down_wall_probe_detects_the_floor() {
    let map = TileMap::demo();
    let vel = Vector2::new(0, 0);
    // Standing on the floor row: the probe one unit below the box lands in
    // the bottom border wall.
    let on_floor = Position::new(Vector2::new(100, 560));
    let mut aabb = AABB::new(Vector2::new(16, 16), Vector2::new(100, 560), Vector2::new(0, 0));
    aabb.collides_down_wall(&on_floor, &vel, &map);
    assert!(aabb.pushes_down_wall);
    assert!(!aabb.pushed_down_wall);
    aabb.collides_down_wall(&on_floor, &vel, &map);
    assert!(aabb.pushed_down_wall);

    // In the air: no obstacle below the probe line.
    let airborne = Position::new(Vector2::new(100, 500));
    let mut aabb2 = AABB::new(Vector2::new(16, 16), Vector2::new(100, 500), Vector2::new(0, 0));
    aabb2.collides_down_wall(&airborne, &vel, &map);
    assert!(!aabb2.pushes_down_wall);
}

#[test]
fn side_wall_probes_detect_adjacent_walls() {
    let map = TileMap::demo();
    let vel = Vector2::new(0, 0);

    // One unit right of the box lies the right border wall at column 24.
    let at_right_wall = Position::new(Vector2::new(752, 200));
    let mut aabb = AABB::new(Vector2::new(16, 16), Vector2::new(752, 200), Vector2::new(0, 0));
    aabb.collides_right_wall(&at_right_wall, &vel, &map);
    assert!(aabb.pushes_right_wall);
    assert!(!aabb.pushed_right_wall);
    aabb.collides_right_wall(&at_right_wall, &vel, &map);
    assert!(aabb.pushed_right_wall);

    // One unit left of the box lies the left border wall at column 0.
    let at_left_wall = Position::new(Vector2::new(32, 200));
    let mut aabb2 = AABB::new(Vector2::new(16, 16), Vector2::new(32, 200), Vector2::new(0, 0));
    aabb2.collides_left_wall(&at_left_wall, &vel, &map);
    assert!(aabb2.pushes_left_wall);

    // One unit above the box lies the top border wall at row 0.
    let at_ceiling = Position::new(Vector2::new(100, 32));
    let mut aabb3 = AABB::new(Vector2::new(16, 16), Vector2::new(100, 32), Vector2::new(0, 0));
    aabb3.collides_up_wall(&at_ceiling, &vel, &map);
    assert!(aabb3.pushes_up_wall);
}

#[test]
fn side_wall_probes_clear_their_flags_in_the_open() {
    let map = TileMap::demo();
    let vel = Vector2::new(0, 0);
    let in_the_open = Position::new(Vector2::new(100, 200));
    let mut aabb = AABB::new(Vector2::new(16, 16), Vector2::new(100, 200), Vector2::new(0, 0));
    aabb.pushes_right_wall = true;
    aabb.pushes_left_wall = true;
    aabb.pushes_up_wall = true;
    aabb.collides_right_wall(&in_the_open, &vel, &map);
    aabb.collides_left_wall(&in_the_open, &vel, &map);
    aabb.collides_up_wall(&in_the_open, &vel, &map);
    assert!(!aabb.pushes_right_wall && aabb.pushed_right_wall);
    assert!(!aabb.pushes_left_wall && aabb.pushed_left_wall);
    assert!(!aabb.pushes_up_wall && aabb.pushed_up_wall);
}

#[test]
fn bounding_box_construction_and_overlap() {
    let a = AABB::new(Vector2::new(16, 16), Vector2::new(92, 92), Vector2::new(0, 0));
    assert_eq!(a.halfsize, Vector2::new(8, 8));
    assert_eq!(a.center, Vector2::new(100, 100));
    assert!(!a.pushes_right_wall && !a.pushed_right_wall);

    // Touching boxes count as overlapping (the distance equals the sum of
    // half extents), a separated pair does not.
    let touching = AABB::new(Vector2::new(16, 16), Vector2::new(108, 92), Vector2::new(0, 0));
    assert!(a.overlaps(touching));
    let apart = AABB::new(Vector2::new(16, 16), Vector2::new(200, 92), Vector2::new(0, 0));
    assert!(!a.overlaps(apart));
}

#[test]
fn position_mutators_keep_one_step_shadow() {
    let mut pos = Position::new(Vector2::new(10, 20));
    pos.x(5);
    assert_eq!(pos.current, Vector2::new(15, 20));
    assert_eq!(pos.previous, Vector2::new(10, 20));
    pos.y(-3);
    assert_eq!(pos.current, Vector2::new(15, 17));
    assert_eq!(pos.previous, Vector2::new(10, 20));
    pos.set_x(40);
    assert_eq!(pos.current, Vector2::new(40, 17));
    assert_eq!(pos.previous, Vector2::new(15, 20));
    pos.set_y(50);
    assert_eq!(pos.previous, Vector2::new(15, 17));

    let mut vel = Velocity::new(Vector2::new(1, 2));
    vel.x(7);
    vel.y(8);
    assert_eq!(vel.current, Vector2::new(7, 8));
    assert_eq!(vel.previous, Vector2::new(1, 2));
}

#[test]
fn input_controls_start_clear_and_track_keys() {
    let fresh = InputControls::new();
    assert!(!fresh.up && !fresh.down && !fresh.left && !fresh.right);
    let defaulted = InputControls::default();
    assert!(!defaulted.up && !defaulted.down && !defaulted.left && !defaulted.right);

    let mut input = InputControls::new();
    input.on_direction_key(Direction::Up, true);
    input.on_direction_key(Direction::Right, true);
    assert!(input.up && input.right && !input.down && !input.left);
    input.on_direction_key(Direction::Up, false);
    assert!(!input.up && input.right);
}
