use feverdream::coords::Coords;
use feverdream::tile::{dim_to_i16, TileIterator};

#[test]
fn iter() {
    let mut it = TileIterator::from_size((5, 3));
    let mut tiles = Vec::new();
    while let Some(tile) = it.next() {
        tiles.push(tile);
    }
    let expected: Vec<Coords> = [
        (0, 0),
        (1, 0),
        (2, 0),
        (3, 0),
        (4, 0),
        (0, 1),
        (1, 1),
        (2, 1),
        (3, 1),
        (4, 1),
        (0, 2),
        (1, 2),
        (2, 2),
        (3, 2),
        (4, 2),
    ]
    .iter()
    .map(|(x, y)| Coords::new(*x, *y))
    .collect();
    assert_eq!(tiles, expected);
}

#[test]
fn remaining_collects_the_same_walk() {
    let it = TileIterator::from_size((5, 3));
    let tiles = it.remaining();
    assert_eq!(tiles.len(), 15);
    assert_eq!(tiles[5], Coords::new(0, 1));
    assert_eq!(tiles[13], Coords::new(3, 2));
}

#[test]
fn iterator_stays_done() {
    let mut it = TileIterator::from_size((1, 1));
    assert_eq!(it.next(), Some(Coords::new(0, 0)));
    assert_eq!(it.next(), None);
    assert_eq!(it.next(), None);
}

#[test]
fn empty_board_has_no_tiles() {
    let mut it = TileIterator::from_size((3, 0));
    assert_eq!(it.next(), None);
}

#[test]
fn dimensions_wrap_like_a_cast() {
    assert_eq!(dim_to_i16(7), 7);
    assert_eq!(dim_to_i16(32767), 32767);
    assert_eq!(dim_to_i16(32768), -32768);
    assert_eq!(dim_to_i16(65535), -1);
}

#[test]
fn coords_arithmetic() {
    let a = Coords::new(3, -2);
    let b = Coords::new(-1, 5);
    assert_eq!(a.plus(b), Coords::new(2, 3));
    assert_eq!(a.minus(b), Coords::new(4, -7));
    assert_eq!(a.signum(), Coords::new(1, -1));
    assert_eq!(Coords::zero().signum(), Coords::new(0, 0));
    assert_eq!(a.min_element(), -2);
    assert_eq!(a.to_key(), (3, -2));
}
