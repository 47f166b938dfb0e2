use platformer_core::geom::Vector2;
use platformer_core::resources::{PositionVector, TileMap, TileType};

fn generate_map() -> TileMap {
    TileMap {
        tiles: vec![
            vec![TileType::Block, TileType::Empty, TileType::Block],
            vec![TileType::Block, TileType::Empty, TileType::Block],
        ],
        position: PositionVector { x: 0, y: 0 },
        width: 3,
        height: 2,
        tile_size: 16,
    }
}

#[test]
fn should_get_tile_at_point() {
    let map = generate_map();
    assert_eq!(map.get_tile_at_point(Vector2::new(22, 22)), Vector2::new(1, 1));
    assert_eq!(map.get_tile_at_point(Vector2::new(2, 16)), Vector2::new(0, 1));
    assert_eq!(map.get_tile_at_point(Vector2::new(32, 20)), Vector2::new(2, 1));
}

#[test]
fn should_get_map_tile_position_vec() {
    let map = generate_map();
    assert_eq!(
        map.get_map_tile_position_vec(Vector2::new(0, 0)),
        Vector2::new(0, 0)
    );
    assert_eq!(
        map.get_map_tile_position_vec(Vector2::new(0, 1)),
        Vector2::new(0, 16)
    );
    assert_eq!(
        map.get_map_tile_position_vec(Vector2::new(2, 1)),
        Vector2::new(32, 16)
    );
}

#[test]
fn should_be_in_bounds() {
    let map = generate_map();
    assert_eq!(map.in_bounds(0, 0), Some((0, 0)));
    assert_eq!(map.in_bounds(0, 1), Some((0, 1)));
    assert_eq!(map.in_bounds(2, 1), Some((2, 1)));
}

#[test]
fn should_not_be_in_bounds() {
    let map = generate_map();
    assert_eq!(map.in_bounds(3, 3), None);
    assert_eq!(map.in_bounds(-1, 4), None);
}

#[test]
fn should_get_tile_block() {
    let map = generate_map();
    assert_eq!(map.get_tile(3, 3), TileType::Block);
    assert_eq!(map.get_tile(0, 0), TileType::Block);
    assert_eq!(map.get_tile(1, 2), TileType::Block);
}

#[test]
fn should_get_tile_empty() {
    let map = generate_map();
    assert_eq!(map.get_tile(1, 0), TileType::Empty);
    assert_eq!(map.get_tile(1, 1), TileType::Empty);
}

#[test]
fn should_check_if_is_obstacle() {
    let map = generate_map();
    assert_eq!(map.is_obstacle(3, 3), true);
    assert_eq!(map.is_obstacle(0, 0), true);
    assert_eq!(map.is_obstacle(1, 2), true);
    assert_eq!(map.is_obstacle(1, 0), false);
    assert_eq!(map.is_obstacle(1, 1), false);
}

#[test]
fn should_check_if_is_empty() {
    let map = generate_map();
    assert_eq!(map.is_empty(3, 3), false);
    assert_eq!(map.is_empty(0, 0), false);
    assert_eq!(map.is_empty(1, 2), false);
    assert_eq!(map.is_empty(1, 0), true);
    assert_eq!(map.is_empty(1, 1), true);
}
