use feverdream::coords::Coords;
use feverdream::effect::{EffectDirection, EffectReach, EffectTarget};
use feverdream::grid::{Grid, MoveError, PlaceError};
use feverdream::tile::{TileDirection, TileObject, TileObjectKind};
use rand::rngs::StdRng;
use rand::SeedableRng;

fn obj(entity: u64, kind: TileObjectKind) -> TileObject {
    TileObject { entity, kind }
}

const PLAYER_TILE: (i16, i16) = (4, 2);

/// The board of the path tests:
///
/// ```text
///  _01234_
///  0.!...0
///  1.###.1
///  2..!.@2
///  3.....3
///  4...!.4
///  _01234_
/// ```
fn test_grid() -> Grid {
    let mut grid = Grid::new(5, 5);
    for (x, y) in [(1, 1), (2, 1), (3, 1)] {
        grid.place_entity(obj(0, TileObjectKind::Wall), Coords::new(x, y)).expect("Failed to place an obstacle");
    }
    for (x, y) in [(1, 0), (2, 2), (3, 4)] {
        grid.place_entity(obj(0, TileObjectKind::Enemy), Coords::new(x, y)).expect("Failed to place an enemy");
    }
    grid.place_entity(obj(0, TileObjectKind::Player), Coords::new(PLAYER_TILE.0, PLAYER_TILE.1))
        .expect("Failed to place the player");
    grid
}

fn path(start: (i16, i16), move_dir: TileDirection, target: EffectTarget, seed: u64) -> Option<Vec<Coords>> {
    let grid = test_grid();
    let mut rng = StdRng::seed_from_u64(seed);
    grid.path_to_reach_effect_target(
        Coords::new(start.0, start.1),
        Coords::new(PLAYER_TILE.0, PLAYER_TILE.1),
        move_dir,
        target,
        &mut rng,
    )
}

fn range_1_area() -> EffectTarget {
    EffectTarget { reach: EffectReach::Range(1), direction: EffectDirection::Area }
}

fn exact_2_orthogonal() -> EffectTarget {
    EffectTarget { reach: EffectReach::Exact(2), direction: EffectDirection::Orthogonal }
}

fn coords(v: &[(i16, i16)]) -> Vec<Coords> {
    v.iter().map(|(x, y)| Coords::new(*x, *y)).collect()
}

#[test]
fn cannot_place_at_coords_when_taken() {
    let coords = Coords::new(3, 3);
    let mut board = Grid::new(6, 6);
    board.place_entity(obj(0, TileObjectKind::Player), coords).expect("Place first piece");
    assert_eq!(board.can_place_at(coords), Err(PlaceError::Taken));
}

#[test]
fn grid_cannot_place_at_coords_when_taken() {
    let coords = Coords::new(3, 3);
    let mut board = Grid::new(6, 6);
    board.place_entity(obj(7, TileObjectKind::Player), coords).expect("Place first piece");
    assert_eq!(board.can_place_at(coords), Err(PlaceError::Taken));
}

#[test]
fn can_place_at_coords() {
    let board = Grid::new(6, 9);
    assert!(board.can_place_at(Coords::new(0, 0)).is_ok());
    assert!(board.can_place_at(Coords::new(3, 3)).is_ok());
    assert!(board.can_place_at(Coords::new(4, 6)).is_ok());
    assert_eq!(board.can_place_at(Coords::new(6, 0)), Err(PlaceError::OutOfBounds));
    assert_eq!(board.can_place_at(Coords::new(0, 9)), Err(PlaceError::OutOfBounds));
    assert_eq!(board.can_place_at(Coords::new(50, 0)), Err(PlaceError::OutOfBounds));
    assert_eq!(board.can_place_at(Coords::new(0, 50)), Err(PlaceError::OutOfBounds));
}

#[test]
fn within_bounds() {
    let board = Grid::new(3, 3);
    assert!(board.within_bounds(Coords::new(0, 0)));
    assert!(board.within_bounds(Coords::new(0, 2)));
    assert!(board.within_bounds(Coords::new(2, 2)));
    assert!(board.within_bounds(Coords::new(1, 1)));
    assert!(!board.within_bounds(Coords::new(3, 0)));
    assert!(!board.within_bounds(Coords::new(0, 3)));
    assert!(!board.within_bounds(Coords::new(-1, 0)));
    assert!(!board.within_bounds(Coords::new(0, -1)));
}

#[test]
fn path_to_reach_effect_target_effect_range_1() {
    assert_eq!(path((2, 2), TileDirection::All, range_1_area(), 0), Some(coords(&[(3, 3)])));
    assert_eq!(path((2, 2), TileDirection::Diagonal, range_1_area(), 0), Some(coords(&[(3, 3)])));
    assert_eq!(
        path((1, 0), TileDirection::All, range_1_area(), 0),
        Some(coords(&[(2, 0), (3, 0), (4, 1)]))
    );
    assert_eq!(
        path((1, 0), TileDirection::Orthogonal, range_1_area(), 0),
        Some(coords(&[(2, 0), (3, 0), (4, 0), (4, 1)]))
    );
    assert_eq!(
        path((1, 0), TileDirection::Diagonal, range_1_area(), 0),
        Some(coords(&[(0, 1), (1, 2), (2, 3), (3, 2)]))
    );
    assert_eq!(path((4, 3), TileDirection::Diagonal, range_1_area(), 0), None);
}

#[test]
fn path_to_reach_effect_target_effect_exact_range_2() {
    assert_eq!(path((2, 2), TileDirection::All, exact_2_orthogonal(), 0), None);
    assert_eq!(
        path((1, 0), TileDirection::All, exact_2_orthogonal(), 0),
        Some(coords(&[(2, 0), (3, 0), (4, 0)]))
    );
    assert_eq!(path((1, 0), TileDirection::Diagonal, exact_2_orthogonal(), 0), None);
}

#[test]
fn ascii_debug_map_draws_the_test_board() {
    let grid = test_grid();
    assert_eq!(
        grid.ascii_debug_map(),
        " _01234_\n 0.!...0\n 1.###.1\n 2..!.@2\n 3.....3\n 4...!.4\n _01234_"
    );
}

#[test]
fn ascii_debug_map_writes_two_digit_rows() {
    let grid = Grid::new(12, 11);
    let map = grid.ascii_debug_map();
    let lines: Vec<&str> = map.split('\n').collect();
    assert_eq!(lines.len(), 13);
    assert_eq!(lines[0], " _012345678901_");
    assert_eq!(lines[1], " 0............0");
    assert_eq!(lines[10], " 9............9");
    assert_eq!(lines[11], "10............10");
    assert_eq!(lines[12], " _012345678901_");
}

#[test]
fn place_then_lookup() {
    let mut grid = Grid::new(4, 4);
    let c = Coords::new(2, 1);
    assert_eq!(grid.place_entity(obj(9, TileObjectKind::Enemy), c), Ok(()));
    assert_eq!(grid.coords_to_tile_entity(c), Some(obj(9, TileObjectKind::Enemy)));
    assert_eq!(grid.entity_to_coords(9), Some(c));
    assert_eq!(grid.coords_to_tile_entity(Coords::new(1, 2)), None);
    assert!(grid.contains_agent(c));
    assert!(grid.contains_die(c));
    assert_eq!(grid.place_entity(obj(10, TileObjectKind::Wall), Coords::new(4, 0)), Err(PlaceError::OutOfBounds));
    assert_eq!(grid.place_entity(obj(10, TileObjectKind::Wall), c), Err(PlaceError::Taken));
}

#[test]
fn walls_are_not_agents() {
    let mut grid = Grid::new(3, 3);
    let c = Coords::new(0, 0);
    grid.place_entity(obj(1, TileObjectKind::Wall), c).unwrap();
    assert!(!grid.contains_agent(c));
    assert!(!grid.contains_die(c));
    assert!(!grid.contains_agent(Coords::new(1, 1)));
}

#[test]
fn move_then_back() {
    let mut grid = Grid::new(5, 5);
    let from = Coords::new(1, 1);
    let to = Coords::new(3, 2);
    grid.place_entity(obj(4, TileObjectKind::Player), from).unwrap();
    assert_eq!(grid.move_entity(4, to), Ok(()));
    assert_eq!(grid.coords_to_tile_entity(to), Some(obj(4, TileObjectKind::Player)));
    assert_eq!(grid.coords_to_tile_entity(from), None);
    assert_eq!(grid.entity_to_coords(4), Some(to));
    assert_eq!(grid.move_entity(4, from), Ok(()));
    assert_eq!(grid.coords_to_tile_entity(from), Some(obj(4, TileObjectKind::Player)));
    assert_eq!(grid.coords_to_tile_entity(to), None);
    assert_eq!(grid.entity_to_coords(4), Some(from));
}

#[test]
fn move_errors() {
    let mut grid = Grid::new(3, 3);
    grid.place_entity(obj(1, TileObjectKind::Player), Coords::new(0, 0)).unwrap();
    grid.place_entity(obj(2, TileObjectKind::Wall), Coords::new(1, 0)).unwrap();
    assert_eq!(grid.move_entity(1, Coords::new(3, 0)), Err(MoveError::OutOfBounds));
    assert_eq!(grid.move_entity(1, Coords::new(1, 0)), Err(MoveError::Taken));
    assert_eq!(grid.move_entity(99, Coords::new(2, 2)), Err(MoveError::EntityLookupFailed));
    assert_eq!(MoveError::from(PlaceError::Taken), MoveError::Taken);
    assert_eq!(MoveError::from(PlaceError::OutOfBounds), MoveError::OutOfBounds);
}

#[test]
fn clear_tile_takes_the_object_off() {
    let mut grid = Grid::new(3, 3);
    let c = Coords::new(2, 2);
    grid.place_entity(obj(5, TileObjectKind::Enemy), c).unwrap();
    assert_eq!(grid.clear_tile(c), Some(obj(5, TileObjectKind::Enemy)));
    assert_eq!(grid.clear_tile(c), None);
    assert_eq!(grid.can_place_at(c), Ok(()));
}

#[test]
fn effect_reaches_the_player() {
    let grid = test_grid();
    let area = range_1_area();
    assert!(grid.effect_tiles_contain_entity_kind(Coords::new(3, 3), area, TileObjectKind::Player));
    assert!(!grid.effect_tiles_contain_entity_kind(Coords::new(0, 3), area, TileObjectKind::Player));
    let line = exact_2_orthogonal();
    assert!(grid.effect_tiles_contain_entity_kind(Coords::new(4, 0), line, TileObjectKind::Player));
    assert!(!grid.effect_tiles_contain_entity_kind(Coords::new(4, 1), line, TileObjectKind::Player));
}

#[test]
fn grid_size_and_tiles() {
    let grid = Grid::new(5, 3);
    assert_eq!(grid.grid_size(), (5, 3));
    let tiles = grid.iter_tiles().remaining();
    assert_eq!(tiles.len(), 15);
    assert_eq!(tiles[0], Coords::new(0, 0));
    assert_eq!(tiles[14], Coords::new(4, 2));
}
