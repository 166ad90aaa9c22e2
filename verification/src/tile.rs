use vstd::prelude::*;
use crate::coords::Coords;

verus! {

/// The position of a board tile.
#[derive(Clone, Copy, Debug, PartialEq, Eq, Structural)]
pub struct TileCoords(pub Coords);

/// The directions an agent moves in and its abilities reach in.
#[derive(Clone, Copy, Debug, PartialEq, Eq, Structural)]
pub enum TileDirection {
    Orthogonal,
    Diagonal,
    All,
}

/// What stands on an occupied tile.
#[derive(Clone, Copy, Debug, PartialEq, Eq, Structural)]
pub enum TileObjectKind {
    Player,
    Enemy,
    Wall,
}

/// An entity standing on a tile, with its kind; `entity` is the entity's id.
#[derive(Clone, Copy, Debug, PartialEq, Eq, Structural)]
pub struct TileObject {
    pub entity: u64,
    pub kind: TileObjectKind,
}

/// Marks a tile shown as reachable by the effect of the selected card.
#[derive(Clone, Copy, Debug, PartialEq, Eq, Structural, Default)]
pub struct TileHighlighted;

/// `w as i16`: the bound a grid dimension gives in tile coordinates.
pub open spec fn dim_bound(w: u16) -> int {
    if w <= i16::MAX { w as int } else { w - 65536 }
}

/// Computes `w as i16`.
pub fn dim_to_i16(w: u16) -> (r: i16)
    ensures
        r == dim_bound(w),
{
    if w <= 32767 {
        w as i16
    } else {
        let low: i16 = (w - 32768) as i16;
        low - 32767 - 1
    }
}

/// Walks the tiles of a grid row by row, left to right.
#[derive(Clone, Copy, Debug)]
pub struct TileIterator {
    grid_size: (u16, u16),
    tile: Coords,
}

/// The `i`-th tile of a row-major walk over rows of width `w`.
pub open spec fn row_major(w: int, i: int) -> Coords {
    Coords::spec_new(i % w, i / w)
}

impl TileIterator {
    pub closed spec fn width(self) -> int {
        dim_bound(self.grid_size.0)
    }

    pub closed spec fn height(self) -> int {
        dim_bound(self.grid_size.1)
    }

    pub closed spec fn current(self) -> Coords {
        self.tile
    }

    /// The iterator can go on without overflowing: it is done, or its current tile lies
    /// inside a row of positive width.
    pub open spec fn wf(self) -> bool {
        self.current().y >= self.height() || (0 < self.width() && 0 <= self.current().x
            < self.width() && 0 <= self.current().y)
    }

    /// Number of tiles walked so far (for a well formed, unfinished iterator).
    pub open spec fn position(self) -> int {
        self.current().y * self.width() + self.current().x
    }

    /// Starts a walk at tile (0, 0) of a grid of the given size.
    pub fn from_size(grid_size: (u16, u16)) -> (r: TileIterator)
        ensures
            r.current() == Coords::spec_new(0, 0),
            r.width() == dim_bound(grid_size.0),
            r.height() == dim_bound(grid_size.1),
            r.wf() <==> (dim_bound(grid_size.1) <= 0 || dim_bound(grid_size.0) > 0),
    {
        TileIterator { grid_size, tile: Coords::new(0, 0) }
    }

    /// The current tile, and advances to the next one; `None` once every row is done.
    pub fn next(&mut self) -> (r: Option<Coords>)
        requires
            old(self).wf(),
        ensures
            final(self).wf(),
            final(self).width() == old(self).width(),
            final(self).height() == old(self).height(),
            old(self).current().y >= old(self).height() ==> r is None && *final(self) == *old(self),
            old(self).current().y < old(self).height() ==> {
                &&& r == Some(old(self).current())
                &&& final(self).current() == (if old(self).current().x + 1 == old(self).width() {
                    Coords::spec_new(0, old(self).current().y + 1)
                } else {
                    Coords::spec_new(old(self).current().x + 1, old(self).current().y as int)
                })
                &&& final(self).position() == old(self).position() + 1
            },
    {
        let w = dim_to_i16(self.grid_size.0);
        let h = dim_to_i16(self.grid_size.1);
        if self.tile.y >= h {
            None
        } else {
            let next = self.tile;
            proof {
                let (x, y) = (next.x as int, next.y as int);
                assert((y + 1) * w == y * w + w) by (nonlinear_arith);
            }
            self.tile.x = self.tile.x + 1;
            if self.tile.x == w {
                self.tile = Coords::new(0, self.tile.y + 1);
            }
            Some(next)
        }
    }

    /// Collects every tile that is left in the walk.
    pub fn remaining(self) -> (r: Vec<Coords>)
        requires
            self.wf(),
            self.width() > 0,
            self.current().y < self.height() ==> self.current().y >= 0,
        ensures
            self.current().y >= self.height() ==> r@.len() == 0,
            self.current().y < self.height() ==> {
                &&& r@.len() == self.width() * self.height() - self.position()
                &&& forall|i: int| 0 <= i < r@.len() ==> #[trigger] r@[i] == row_major(
                    self.width(),
                    self.position() + i,
                )
            },
    {
        let mut it = self;
        let mut res: Vec<Coords> = Vec::new();
        let ghost w = self.width();
        let ghost h = self.height();
        let ghost start = self.position();
        proof {
            if self.current().y < h {
                lemma_row_major(w, self.current().x as int, self.current().y as int);
                assert(h * w - start >= 1) by (nonlinear_arith)
                    requires 0 <= self.current().y < h, 0 <= self.current().x < w, start == self.current().y * w + self.current().x;
            }
        }
        loop
            invariant
                it.wf(),
                it.width() == w,
                it.height() == h,
                w > 0,
                self.current().y >= h ==> it == self && res@.len() == 0,
                self.current().y < h ==> {
                    &&& 0 <= it.current().y <= h
                    &&& it.current().y == h ==> it.current().x == 0
                    &&& it.current() == row_major(w, it.position())
                    &&& res@.len() == it.position() - start
                    &&& it.position() <= w * h
                    &&& forall|i: int| 0 <= i < res@.len() ==> #[trigger] res@[i] == row_major(w, start + i)
                },
            ensures
                self.current().y >= h ==> res@.len() == 0,
                self.current().y < h ==> {
                    &&& res@.len() == w * h - start
                    &&& forall|i: int| 0 <= i < res@.len() ==> #[trigger] res@[i] == row_major(w, start + i)
                },
            decreases (if it.current().y < h { w * h - it.position() } else { 0 }),
        {
            let ghost before = it;
            match it.next() {
                Some(t) => {
                    res.push(t);
                    proof {
                        let c = before.current();
                        lemma_row_major(w, it.current().x as int, it.current().y as int);
                        assert(it.current().y <= h);
                        if it.current().y == h {
                            assert(it.current().x == 0);
                        }
                        assert(it.position() <= w * h) by (nonlinear_arith)
                            requires
                                it.position() == it.current().y * w + it.current().x,
                                0 <= it.current().x < w,
                                0 <= it.current().y <= h,
                                it.current().y == h ==> it.current().x == 0;
                        assert(res@[res@.len() - 1] == row_major(w, start + res@.len() - 1));
                    }
                },
                None => {
                    proof {
                        if self.current().y < h {
                            assert(it.current().y == h);
                            assert(it.position() == w * h) by (nonlinear_arith)
                                requires it.position() == it.current().y * w + it.current().x,
                                    it.current().y == h, it.current().x == 0;
                        }
                    }
                    break;
                },
            }
        }
        res
    }
}

/// The row-major index of `(x, y)` walks back to `(x, y)`.
proof fn lemma_row_major(w: int, x: int, y: int)
    requires
        w > 0,
        0 <= x < w,
        0 <= y,
        y < 32768,
        w < 32768,
    ensures
        row_major(w, y * w + x) == Coords::spec_new(x, y),
{
    vstd::arithmetic::div_mod::lemma_fundamental_div_mod_converse(y * w + x, w, y, x);
}

} // verus!
