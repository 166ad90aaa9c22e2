//! Moving agents across the board, tile by tile.
use vstd::prelude::*;
use crate::coords::{Coords, fits_i16};
use crate::grid::Grid;
use crate::tile::dim_bound;

verus! {

/// How fast an agent moves: the time per tile and the pause between tiles.
#[derive(Clone, Copy, Debug, PartialEq, Eq, Structural)]
pub struct Movement {
    pub tile_movement_speed_ms: u64,
    pub tile_pause_ms: u64,
}

impl Default for Movement {
    fn default() -> (r: Self)
        ensures
            r.tile_movement_speed_ms == 300,
            r.tile_pause_ms == 100,
    {
        Movement { tile_movement_speed_ms: 300, tile_pause_ms: 100 }
    }
}

/// An event asking to move an agent to a tile.
#[derive(Clone, Copy, Debug, PartialEq, Eq, Structural)]
pub struct MoveAction {
    pub agent_e: u64,
    pub to: Coords,
}

pub open spec fn sign(v: int) -> int {
    if v > 0 { 1 } else if v < 0 { -1 } else { 0 }
}

pub open spec fn abs(v: int) -> int {
    if v < 0 { -v } else { v }
}

/// `to` lies on a row, a column or a diagonal through `from`.
pub open spec fn aligned(from: Coords, to: Coords) -> bool {
    let dx = to.x - from.x;
    let dy = to.y - from.y;
    dx == 0 || dy == 0 || abs(dx) == abs(dy)
}

/// The number of single steps from `from` to an aligned `to`.
pub open spec fn line_len(from: Coords, to: Coords) -> int {
    let ax = abs(to.x - from.x);
    let ay = abs(to.y - from.y);
    if ax < ay { ay } else { ax }
}

/// `k` times the sign of `d`.
pub open spec fn scaled(k: int, d: int) -> int {
    if d > 0 { k } else if d < 0 { -k } else { 0 }
}

/// The tile `k` single steps from `from` towards `to`.
pub open spec fn line_tile(from: Coords, to: Coords, k: int) -> Coords {
    Coords::spec_new(from.x + scaled(k, to.x - from.x), from.y + scaled(k, to.y - from.y))
}

/// Steps left before `c` leaves the board, walking by `(sx, sy)`.
pub open spec fn steps_left(grid: &Grid, c: Coords, sx: int, sy: int) -> int {
    if sx > 0 {
        dim_bound(grid.width()) - c.x
    } else if sx < 0 {
        c.x + 1
    } else if sy > 0 {
        dim_bound(grid.height()) - c.y
    } else {
        c.y + 1
    }
}

/// The tiles an agent passes moving in a straight line from `start` to `to`, one step at a
/// time, without `start`. `None` when there is no such move: `to` is `start`, is not on a
/// row, column or diagonal through it, or the line leaves the board.
pub fn move_path(grid: &Grid, start: Coords, to: Coords) -> (r: Option<Vec<Coords>>)
    requires
        fits_i16(to.x - start.x),
        fits_i16(to.y - start.y),
    ensures
        r is Some <==> (start != to && aligned(start, to) && grid.in_bounds(start) && grid.in_bounds(to)),
        r matches Some(v) ==> v@.len() == line_len(start, to) && forall|k: int| 0 <= k < v@.len()
            ==> #[trigger] v@[k] == line_tile(start, to, k + 1),
{
    let dir = to.minus(start).signum();
    if dir.x == 0 && dir.y == 0 {
        return None;
    }
    let ghost sx = dir.x as int;
    let ghost sy = dir.y as int;
    let ghost n = line_len(start, to);
    if !grid.within_bounds(start) {
        return None;
    }
    let mut current = start;
    let mut path: Vec<Coords> = Vec::new();
    loop
        invariant
            sx == sign(to.x - start.x),
            sy == sign(to.y - start.y),
            sx != 0 || sy != 0,
            dir.x == sx,
            dir.y == sy,
            n == line_len(start, to),
            grid.in_bounds(start),
            grid.in_bounds(current),
            current == line_tile(start, to, path@.len() as int),
            current.x == start.x + scaled(path@.len() as int, to.x - start.x),
            current.y == start.y + scaled(path@.len() as int, to.y - start.y),
            aligned(start, to) ==> path@.len() < n,
            forall|k: int| 0 <= k < path@.len() ==> #[trigger] path@[k] == line_tile(start, to, k + 1),
            forall|k: int| 0 <= k <= path@.len() ==> grid.in_bounds(#[trigger] line_tile(start, to, k)),
        decreases steps_left(grid, current, sx, sy),
    {
        let next = current.plus(dir);
        if !grid.within_bounds(next) {
            proof {
                let k: int = path@.len() as int + 1;
                assert(next == line_tile(start, to, k));
                if aligned(start, to) && grid.in_bounds(to) {
                    assert(to == line_tile(start, to, n));
                    lemma_line_in_bounds(grid, start, to, k);
                }
            }
            return None;
        }
        current = next;
        path.push(current);
        if current == to {
            proof {
                lemma_reached_aligned(start, to, path@.len() as int);
            }
            return Some(path);
        }
        proof {
            if aligned(start, to) {
                assert(to == line_tile(start, to, n));
                assert(path@.len() != n);
                assert(path@.len() < n);
            }
        }
    }
}

/// Reaching `to` after `k` steps means `to` is aligned, `k` steps away.
proof fn lemma_reached_aligned(start: Coords, to: Coords, k: int)
    requires
        k >= 1,
        fits_i16(to.x - start.x),
        fits_i16(to.y - start.y),
        start != to,
        fits_i16(start.x + scaled(k, to.x - start.x)),
        fits_i16(start.y + scaled(k, to.y - start.y)),
        line_tile(start, to, k) == to,
    ensures
        aligned(start, to),
        line_len(start, to) == k,
{
}

/// Every tile of the segment from `start` to an aligned `to` lies on the board when both ends do.
proof fn lemma_line_in_bounds(grid: &Grid, start: Coords, to: Coords, k: int)
    requires
        aligned(start, to),
        grid.in_bounds(start),
        grid.in_bounds(to),
        0 <= k <= line_len(start, to),
    ensures
        grid.in_bounds(line_tile(start, to, k)),
{
}

} // verus!
