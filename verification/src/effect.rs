use vstd::prelude::*;
use crate::coords::Coords;
use crate::palette::ThemeColor;

verus! {

/// The shape along which an effect reaches out from its center.
#[derive(Clone, Copy, Debug, PartialEq, Eq, Structural)]
pub enum EffectDirection {
    Area,
    Orthogonal,
    Diagonal,
}

/// How far an effect reaches: exactly `n` tiles away, or anywhere from 1 up to `n` tiles away.
#[derive(Clone, Copy, Debug, PartialEq, Eq, Structural)]
pub enum EffectReach {
    Exact(u8),
    Range(u8),
}

impl EffectReach {
    /// Largest distance reached.
    pub open spec fn far(self) -> int {
        match self {
            EffectReach::Exact(v) => v as int,
            EffectReach::Range(m) => m as int,
        }
    }

    /// Smallest distance reached along a line.
    pub open spec fn near(self) -> int {
        match self {
            EffectReach::Exact(v) => v as int,
            EffectReach::Range(_) => 1,
        }
    }

    /// Number of distances reached along a line.
    pub open spec fn line_count(self) -> nat {
        if self.far() >= self.near() {
            (self.far() - self.near() + 1) as nat
        } else {
            0
        }
    }
}

/// Which tiles a tile card may be played on.
#[derive(Clone, Copy, Debug, PartialEq, Eq, Structural)]
pub enum TileTarget {
    Empty,
    Enemy,
}

/// What is shared by every card effect: a title and the change of temperature it brings.
pub trait CardEffectCommon {
    /// The title shown on the card.
    spec fn spec_title(&self) -> Seq<char>;

    /// The change of temperature, as a mathematical integer.
    spec fn spec_temp_offset(&self) -> Option<int>;

    /// The change of temperature can be computed without overflow.
    spec fn temp_offset_defined(&self) -> bool;

    fn title(&self) -> (r: &str)
        ensures
            r@ == self.spec_title(),
    ;

    fn temp_offset(&self) -> (r: Option<i8>)
        requires
            self.temp_offset_defined(),
        ensures
            r matches Some(v) ==> self.spec_temp_offset() == Some(v as int),
            r is None <==> self.spec_temp_offset() is None,
    ;
}

/// An effect played as soon as its card is selected.
#[derive(Clone, Copy, Debug, PartialEq, Eq, Structural)]
pub enum CardEffect {
    TempOffset(i8),
}

/// An effect played on a selected tile; playing it changes the temperature by `temp_offset`.
#[derive(Clone, Copy, Debug, PartialEq, Eq, Structural)]
pub enum TileCardEffect {
    Move { target: EffectTarget, temp_offset: i8 },
    Attack { target: EffectTarget, temp_offset: i8 },
}

/// When a card's effect is triggered: on selection, or on a selected tile.
#[derive(Clone, Copy, Debug, PartialEq, Eq, Structural)]
pub enum CardEffectTrigger {
    CardSelection(CardEffect),
    TileSelection(TileCardEffect),
}

/// An event asking to play the card entity.
#[derive(Clone, Copy, Debug, PartialEq, Eq, Structural)]
pub struct PlayCard(pub u64);

/// An event asking to play a tile card on the selected tile.
#[derive(Clone, Copy, Debug, PartialEq, Eq, Structural)]
pub struct PlaySelectedTileCard {
    pub card_e: u64,
    pub selected_tile: Coords,
}

impl CardEffectCommon for CardEffect {
    open spec fn spec_title(&self) -> Seq<char> {
        "Temp"@
    }

    open spec fn spec_temp_offset(&self) -> Option<int> {
        match self {
            CardEffect::TempOffset(offset) => Some(*offset as int),
        }
    }

    open spec fn temp_offset_defined(&self) -> bool {
        true
    }

    fn title(&self) -> (r: &str) {
        "Temp"
    }

    fn temp_offset(&self) -> (r: Option<i8>) {
        match self {
            CardEffect::TempOffset(offset) => Some(*offset),
        }
    }
}

impl CardEffectCommon for TileCardEffect {
    open spec fn spec_title(&self) -> Seq<char> {
        match self {
            TileCardEffect::Move { .. } => "Move"@,
            TileCardEffect::Attack { .. } => "Attack"@,
        }
    }

    open spec fn spec_temp_offset(&self) -> Option<int> {
        Some(-self.spec_cost())
    }

    open spec fn temp_offset_defined(&self) -> bool {
        self.spec_cost() != i8::MIN
    }

    fn title(&self) -> (r: &str) {
        match self {
            TileCardEffect::Move { .. } => "Move",
            TileCardEffect::Attack { .. } => "Attack",
        }
    }

    fn temp_offset(&self) -> (r: Option<i8>) {
        match self {
            TileCardEffect::Move { temp_offset, .. } | TileCardEffect::Attack { temp_offset, .. } => Some(
                -*temp_offset,
            ),
        }
    }
}

impl CardEffectCommon for CardEffectTrigger {
    open spec fn spec_title(&self) -> Seq<char> {
        match self {
            CardEffectTrigger::CardSelection(e) => e.spec_title(),
            CardEffectTrigger::TileSelection(e) => e.spec_title(),
        }
    }

    open spec fn spec_temp_offset(&self) -> Option<int> {
        match self {
            CardEffectTrigger::CardSelection(e) => e.spec_temp_offset(),
            CardEffectTrigger::TileSelection(e) => e.spec_temp_offset(),
        }
    }

    open spec fn temp_offset_defined(&self) -> bool {
        match self {
            CardEffectTrigger::CardSelection(e) => e.temp_offset_defined(),
            CardEffectTrigger::TileSelection(e) => e.temp_offset_defined(),
        }
    }

    fn title(&self) -> (r: &str) {
        match self {
            CardEffectTrigger::CardSelection(e) => e.title(),
            CardEffectTrigger::TileSelection(e) => e.title(),
        }
    }

    fn temp_offset(&self) -> (r: Option<i8>) {
        match self {
            CardEffectTrigger::CardSelection(e) => e.temp_offset(),
            CardEffectTrigger::TileSelection(e) => e.temp_offset(),
        }
    }
}

impl TileCardEffect {
    /// The temperature change the effect is printed with.
    pub open spec fn spec_cost(self) -> i8 {
        match self {
            TileCardEffect::Move { temp_offset, .. } => temp_offset,
            TileCardEffect::Attack { temp_offset, .. } => temp_offset,
        }
    }

    pub open spec fn spec_target(self) -> EffectTarget {
        match self {
            TileCardEffect::Move { target, .. } => target,
            TileCardEffect::Attack { target, .. } => target,
        }
    }

    pub open spec fn spec_tile_target(self) -> TileTarget {
        match self {
            TileCardEffect::Move { .. } => TileTarget::Empty,
            TileCardEffect::Attack { .. } => TileTarget::Enemy,
        }
    }

    /// Moves go to empty tiles, attacks to enemies.
    pub fn tile_target(&self) -> (r: TileTarget)
        ensures
            r == self.spec_tile_target(),
    {
        match self {
            TileCardEffect::Move { .. } => TileTarget::Empty,
            TileCardEffect::Attack { .. } => TileTarget::Enemy,
        }
    }

    /// The relative tiles the effect reaches.
    pub fn tiles(&self) -> (r: Vec<Coords>)
        ensures
            r@ == self.spec_target().spec_target_tiles(),
    {
        match self {
            TileCardEffect::Move { target, .. } | TileCardEffect::Attack { target, .. } => target.target_tiles(),
        }
    }
}

/// Colors of the tiles a card may be played on: highlighted, and hovered.
#[derive(Clone, Copy, Debug, PartialEq, Eq, Structural)]
pub struct TileInteractionPalette {
    pub highlight: ThemeColor,
    pub hover: ThemeColor,
}

impl TileInteractionPalette {
    pub fn new(highlight: ThemeColor, hover: ThemeColor) -> (r: Self)
        ensures
            r.highlight == highlight,
            r.hover == hover,
    {
        TileInteractionPalette { highlight, hover }
    }
}

/// The tiles an effect reaches, relative to the tile it is cast from.
#[derive(Clone, Copy, Debug, PartialEq, Eq, Structural)]
pub struct EffectTarget {
    pub reach: EffectReach,
    pub direction: EffectDirection,
}

/// The four tiles at distance `i` along the orthogonal or diagonal lines, in the order
/// up, down, left, right (orthogonal) or up-left, down-left, up-right, down-right (diagonal).
pub open spec fn line_quad(diagonal: bool, i: int) -> Seq<Coords> {
    if diagonal {
        seq![
            Coords::spec_new(-i, -i),
            Coords::spec_new(-i, i),
            Coords::spec_new(i, -i),
            Coords::spec_new(i, i),
        ]
    } else {
        seq![
            Coords::spec_new(0, -i),
            Coords::spec_new(0, i),
            Coords::spec_new(-i, 0),
            Coords::spec_new(i, 0),
        ]
    }
}

/// Tiles along the lines for the distances `near, near + 1, .. near + count - 1`.
pub open spec fn line_tiles(diagonal: bool, near: int, count: nat) -> Seq<Coords>
    decreases count,
{
    if count == 0 {
        Seq::empty()
    } else {
        line_tiles(diagonal, near, (count - 1) as nat) + line_quad(diagonal, near + count - 1)
    }
}

/// Chebyshev distance of a relative position from the center.
pub open spec fn chebyshev(x: int, y: int) -> int {
    let ax = if x < 0 { -x } else { x };
    let ay = if y < 0 { -y } else { y };
    if ax < ay { ay } else { ax }
}

/// Whether the box scan keeps the cell `(x, y)`: on a ring the cells at distance exactly `m`,
/// otherwise every cell but the center.
pub open spec fn box_keeps(m: int, ring: bool, x: int, y: int) -> bool {
    if ring {
        chebyshev(x, y) == m
    } else {
        !(x == 0 && y == 0)
    }
}

/// Kept cells of row `y` of the box of radius `m`, for the first `c` columns, left to right.
pub open spec fn box_row(m: int, ring: bool, y: int, c: nat) -> Seq<Coords>
    decreases c,
{
    if c == 0 {
        Seq::empty()
    } else {
        let prev = box_row(m, ring, y, (c - 1) as nat);
        let x = c - 1 - m;
        if box_keeps(m, ring, x, y) {
            prev.push(Coords::spec_new(x, y))
        } else {
            prev
        }
    }
}

/// Kept cells of the first `r` rows of the box of radius `m`, top to bottom.
pub open spec fn box_rows(m: int, ring: bool, r: nat) -> Seq<Coords>
    decreases r,
{
    if r == 0 {
        Seq::empty()
    } else {
        box_rows(m, ring, (r - 1) as nat) + box_row(m, ring, r - 1 - m, (2 * m + 1) as nat)
    }
}

/// The kept cells of one row are exactly the cells of that row in the scanned columns.
proof fn lemma_box_row(m: int, ring: bool, y: int, c: nat)
    requires
        0 <= m <= 255,
        -m <= y <= m,
        c <= 2 * m + 1,
    ensures
        forall|p: Coords| #![trigger box_row(m, ring, y, c).contains(p)]
            box_row(m, ring, y, c).contains(p) <==> (p.y == y && -m <= p.x < c - m
                && box_keeps(m, ring, p.x as int, p.y as int)),
        box_row(m, ring, y, c).no_duplicates(),
        forall|i: int| 0 <= i < box_row(m, ring, y, c).len() ==> #[trigger] box_row(m, ring, y, c)[i].y == y,
    decreases c,
{
    if c > 0 {
        lemma_box_row(m, ring, y, (c - 1) as nat);
        let prev = box_row(m, ring, y, (c - 1) as nat);
        let x = c - 1 - m;
        if box_keeps(m, ring, x, y) {
            let q = Coords::spec_new(x, y);
            assert(!prev.contains(q));
            assert forall|p: Coords| #![trigger box_row(m, ring, y, c).contains(p)]
                box_row(m, ring, y, c).contains(p) <==> (p.y == y && -m <= p.x < c - m
                    && box_keeps(m, ring, p.x as int, p.y as int)) by {
                if p == q {
                    assert(box_row(m, ring, y, c)[prev.len() as int] == q);
                }
                if box_row(m, ring, y, c).contains(p) && p != q {
                    let i = choose|i: int| 0 <= i < box_row(m, ring, y, c).len() && box_row(m, ring, y, c)[i] == p;
                    assert(prev[i] == p);
                }
                if prev.contains(p) {
                    let i = choose|i: int| 0 <= i < prev.len() && prev[i] == p;
                    assert(box_row(m, ring, y, c)[i] == p);
                }
            }
            assert forall|i: int, j: int| 0 <= i < j < box_row(m, ring, y, c).len()
                implies box_row(m, ring, y, c)[i] != box_row(m, ring, y, c)[j] by {
                if j == prev.len() {
                    assert(prev.contains(prev[i]));
                }
            }
        }
    }
}

/// The kept cells of the first `r` rows are exactly the kept cells of the box in those rows.
proof fn lemma_box_rows(m: int, ring: bool, r: nat)
    requires
        0 <= m <= 255,
        r <= 2 * m + 1,
    ensures
        forall|p: Coords| #![trigger box_rows(m, ring, r).contains(p)]
            box_rows(m, ring, r).contains(p) <==> (-m <= p.y < r - m && -m <= p.x <= m
                && box_keeps(m, ring, p.x as int, p.y as int)),
        box_rows(m, ring, r).no_duplicates(),
        forall|i: int| 0 <= i < box_rows(m, ring, r).len() ==> #[trigger] box_rows(m, ring, r)[i].y < r - m,
    decreases r,
{
    if r > 0 {
        lemma_box_rows(m, ring, (r - 1) as nat);
        let prev = box_rows(m, ring, (r - 1) as nat);
        let y = r - 1 - m;
        let row = box_row(m, ring, y, (2 * m + 1) as nat);
        lemma_box_row(m, ring, y, (2 * m + 1) as nat);
        let all = box_rows(m, ring, r);
        assert(all == prev + row);
        assert forall|p: Coords| #![trigger box_rows(m, ring, r).contains(p)]
            all.contains(p) <==> (-m <= p.y < r - m && -m <= p.x <= m
                && box_keeps(m, ring, p.x as int, p.y as int)) by {
            if all.contains(p) {
                let i = choose|i: int| 0 <= i < all.len() && all[i] == p;
                if i < prev.len() {
                    assert(prev[i] == p);
                    assert(prev.contains(p));
                } else {
                    assert(row[i - prev.len()] == p);
                    assert(row.contains(p));
                }
            }
            if prev.contains(p) {
                let i = choose|i: int| 0 <= i < prev.len() && prev[i] == p;
                assert(all[i] == p);
            }
            if row.contains(p) {
                let i = choose|i: int| 0 <= i < row.len() && row[i] == p;
                assert(all[prev.len() + i] == p);
            }
        }
        assert forall|i: int| 0 <= i < all.len() implies #[trigger] all[i].y < r - m by {
            if i < prev.len() {
                assert(all[i] == prev[i]);
            } else {
                assert(all[i] == row[i - prev.len()]);
            }
        }
        assert forall|i: int, j: int| 0 <= i < j < all.len() implies all[i] != all[j] by {
            if j >= prev.len() && i < prev.len() {
                assert(all[i] == prev[i]);
                assert(all[j] == row[j - prev.len()]);
                assert(prev[i].y < r - 1 - m);
                assert(row[j - prev.len()].y == y);
            } else if i >= prev.len() {
                assert(all[i] == row[i - prev.len()]);
                assert(all[j] == row[j - prev.len()]);
                assert(row.no_duplicates());
            } else {
                assert(all[i] == prev[i]);
                assert(all[j] == prev[j]);
            }
        }
    }
}

/// Every tile along the lines lies within distance `near + count - 1` of the center.
proof fn lemma_line_tiles_bounded(diagonal: bool, near: int, count: nat)
    requires
        0 <= near,
        near + count <= 256,
    ensures
        forall|j: int| 0 <= j < line_tiles(diagonal, near, count).len() ==> {
            let t = #[trigger] line_tiles(diagonal, near, count)[j];
            -(near + count - 1) <= t.x <= near + count - 1 && -(near + count - 1) <= t.y <= near + count - 1
        },
        line_tiles(diagonal, near, count).len() == 4 * count,
    decreases count,
{
    if count > 0 {
        lemma_line_tiles_bounded(diagonal, near, (count - 1) as nat);
        let prev = line_tiles(diagonal, near, (count - 1) as nat);
        let q = line_quad(diagonal, near + count - 1);
        assert forall|j: int| 0 <= j < line_tiles(diagonal, near, count).len() implies {
            let t = #[trigger] line_tiles(diagonal, near, count)[j];
            -(near + count - 1) <= t.x <= near + count - 1 && -(near + count - 1) <= t.y <= near + count - 1
        } by {
            if j < prev.len() {
                assert(line_tiles(diagonal, near, count)[j] == prev[j]);
            } else {
                assert(line_tiles(diagonal, near, count)[j] == q[j - prev.len()]);
            }
        }
    }
}

/// Every tile an effect reaches lies within its far reach of the center, on both axes.
pub proof fn lemma_target_tiles_bounded(target: EffectTarget)
    ensures
        forall|j: int| 0 <= j < target.spec_target_tiles().len() ==> {
            let t = #[trigger] target.spec_target_tiles()[j];
            -target.reach.far() <= t.x <= target.reach.far() && -target.reach.far() <= t.y
                <= target.reach.far()
        },
{
    let far = target.reach.far();
    match target.direction {
        EffectDirection::Area => {
            lemma_box_rows(far, target.reach is Exact, (2 * far + 1) as nat);
            assert forall|j: int| 0 <= j < target.spec_target_tiles().len() implies {
                let t = #[trigger] target.spec_target_tiles()[j];
                -far <= t.x <= far && -far <= t.y <= far
            } by {
                assert(target.spec_target_tiles().contains(target.spec_target_tiles()[j]));
            }
        },
        EffectDirection::Orthogonal => {
            lemma_line_tiles_bounded(false, target.reach.near(), target.reach.line_count());
        },
        EffectDirection::Diagonal => {
            lemma_line_tiles_bounded(true, target.reach.near(), target.reach.line_count());
        },
    }
}

/// The four line tiles at distance `i` are exactly the tiles at that distance on the axes
/// (orthogonal) or on the diagonals.
proof fn lemma_line_quad_contains(diagonal: bool, i: int, t: Coords)
    requires
        0 <= i <= 255,
    ensures
        line_quad(diagonal, i).contains(t) <==> {
            &&& (!diagonal ==> (t.x == 0 || t.y == 0))
            &&& (diagonal ==> (t.x == t.y || t.x == -t.y))
            &&& chebyshev(t.x as int, t.y as int) == i
        },
{
    let q = line_quad(diagonal, i);
    if q.contains(t) {
        let k = choose|k: int| 0 <= k < q.len() && q[k] == t;
        assert(0 <= k < 4);
    }
    let shape = (!diagonal ==> (t.x == 0 || t.y == 0)) && (diagonal ==> (t.x == t.y || t.x == -t.y))
        && chebyshev(t.x as int, t.y as int) == i;
    if shape {
        if diagonal {
            if t.x == -i && t.y == -i { assert(q[0] == t); }
            else if t.x == -i && t.y == i { assert(q[1] == t); }
            else if t.x == i && t.y == -i { assert(q[2] == t); }
            else { assert(q[3] == t); }
        } else {
            if t.x == 0 && t.y == -i { assert(q[0] == t); }
            else if t.x == 0 && t.y == i { assert(q[1] == t); }
            else if t.x == -i && t.y == 0 { assert(q[2] == t); }
            else { assert(q[3] == t); }
        }
    }
}

/// The line tiles for distances `near` to `near + count - 1` are exactly the tiles on the
/// axes (orthogonal) or diagonals at one of those distances.
proof fn lemma_line_tiles_contains(diagonal: bool, near: int, count: nat, t: Coords)
    requires
        0 <= near,
        near + count <= 256,
    ensures
        line_tiles(diagonal, near, count).contains(t) <==> {
            &&& (!diagonal ==> (t.x == 0 || t.y == 0))
            &&& (diagonal ==> (t.x == t.y || t.x == -t.y))
            &&& near <= chebyshev(t.x as int, t.y as int) < near + count
        },
    decreases count,
{
    broadcast use vstd::seq_lib::group_seq_properties;
    if count > 0 {
        lemma_line_tiles_contains(diagonal, near, (count - 1) as nat, t);
        lemma_line_quad_contains(diagonal, near + count - 1, t);
    }
}

/// What a line effect reaches: orthogonal effects reach tiles on the two axes, diagonal ones
/// tiles on the two diagonals, at exactly the distance of an `Exact` reach, or at any
/// distance from 1 up to that of a `Range` reach.
pub proof fn lemma_line_reach(target: EffectTarget, t: Coords)
    requires
        !(target.direction is Area),
    ensures
        target.spec_target_tiles().contains(t) <==> {
            &&& (target.direction is Orthogonal ==> (t.x == 0 || t.y == 0))
            &&& (target.direction is Diagonal ==> (t.x == t.y || t.x == -t.y))
            &&& match target.reach {
                EffectReach::Exact(v) => chebyshev(t.x as int, t.y as int) == v,
                EffectReach::Range(m) => 1 <= chebyshev(t.x as int, t.y as int) <= m,
            }
        },
{
    lemma_line_tiles_contains(target.direction is Diagonal, target.reach.near(), target.reach.line_count(), t);
}

impl EffectTarget {
    /// The relative tiles reached, in the order they are produced.
    pub open spec fn spec_target_tiles(self) -> Seq<Coords> {
        match self.direction {
            EffectDirection::Area => {
                let m = self.reach.far();
                box_rows(m, self.reach is Exact, (2 * m + 1) as nat)
            },
            EffectDirection::Orthogonal => line_tiles(false, self.reach.near(), self.reach.line_count()),
            EffectDirection::Diagonal => line_tiles(true, self.reach.near(), self.reach.line_count()),
        }
    }

    /// The relative tiles an effect reaches from its center.
    ///
    /// An area reaches every tile within the square of radius `far` but the center (`Range`),
    /// or the ring of tiles at exactly that distance (`Exact`). Lines reach the tiles at
    /// distances `near..=far` along the four orthogonal or diagonal directions.
    pub fn target_tiles(&self) -> (r: Vec<Coords>)
        ensures
            r@ == self.spec_target_tiles(),
            self.direction is Area ==> r@.no_duplicates(),
            self.direction is Area ==> forall|c: Coords| #![trigger r@.contains(c)]
                r@.contains(c) <==> (chebyshev(c.x as int, c.y as int) <= self.reach.far()
                    && box_keeps(self.reach.far(), self.reach is Exact, c.x as int, c.y as int)),
            !(self.direction is Area) ==> forall|c: Coords| #![trigger r@.contains(c)]
                r@.contains(c) <==> {
                    &&& (self.direction is Orthogonal ==> (c.x == 0 || c.y == 0))
                    &&& (self.direction is Diagonal ==> (c.x == c.y || c.x == -c.y))
                    &&& match self.reach {
                        EffectReach::Exact(v) => chebyshev(c.x as int, c.y as int) == v,
                        EffectReach::Range(m) => 1 <= chebyshev(c.x as int, c.y as int) <= m,
                    }
                },
    {
        proof {
            if !(self.direction is Area) {
                assert forall|c: Coords| #![trigger self.spec_target_tiles().contains(c)]
                    self.spec_target_tiles().contains(c) <==> {
                    &&& (self.direction is Orthogonal ==> (c.x == 0 || c.y == 0))
                    &&& (self.direction is Diagonal ==> (c.x == c.y || c.x == -c.y))
                    &&& match self.reach {
                        EffectReach::Exact(v) => chebyshev(c.x as int, c.y as int) == v,
                        EffectReach::Range(m) => 1 <= chebyshev(c.x as int, c.y as int) <= m,
                    }
                } by {
                    lemma_line_reach(*self, c);
                }
            }
            if self.direction is Area {
                let m = self.reach.far();
                lemma_box_rows(m, self.reach is Exact, (2 * m + 1) as nat);
            }
        }
        match self.direction {
            EffectDirection::Area => {
                let (m, ring): (u8, bool) = match self.reach {
                    EffectReach::Exact(v) => (v, true),
                    EffectReach::Range(m) => (m, false),
                };
                box_tiles(m, ring)
            },
            EffectDirection::Orthogonal => line_targets(self.reach, false),
            EffectDirection::Diagonal => line_targets(self.reach, true),
        }
    }
}

fn line_targets(reach: EffectReach, diagonal: bool) -> (r: Vec<Coords>)
    ensures
        r@ == line_tiles(diagonal, reach.near(), reach.line_count()),
{
    let (near, far): (i16, i16) = match reach {
        EffectReach::Exact(v) => (v as i16, v as i16),
        EffectReach::Range(m) => (1, m as i16),
    };
    let ghost count = reach.line_count();
    let mut res: Vec<Coords> = Vec::new();
    let mut i: i16 = near;
    while i <= far
        invariant
            near == reach.near(),
            far == reach.far(),
            0 <= near <= 255,
            0 <= far <= 255,
            near <= i <= far + 1 || (i == near && far < near),
            count == (if far >= near { (far - near + 1) as nat } else { 0nat }),
            res@ == line_tiles(diagonal, near as int, (i - near) as nat),
        decreases far + 1 - i,
    {
        let quad: [Coords; 4] = if diagonal {
            [Coords::new(-i, -i), Coords::new(-i, i), Coords::new(i, -i), Coords::new(i, i)]
        } else {
            [Coords::new(0, -i), Coords::new(0, i), Coords::new(-i, 0), Coords::new(i, 0)]
        };
        res.push(quad[0]);
        res.push(quad[1]);
        res.push(quad[2]);
        res.push(quad[3]);
        proof {
            let n = (i - near) as nat;
            assert(line_tiles(diagonal, near as int, n + 1) == line_tiles(diagonal, near as int, n)
                + line_quad(diagonal, i as int));
            assert(res@ =~= line_tiles(diagonal, near as int, n + 1));
        }
        i = i + 1;
    }
    proof {
        if far < near {
            assert(res@ =~= Seq::<Coords>::empty());
        }
    }
    res
}

fn box_tiles(m: u8, ring: bool) -> (r: Vec<Coords>)
    ensures
        r@ == box_rows(m as int, ring, (2 * m + 1) as nat),
{
    let m: i16 = m as i16;
    let mut res: Vec<Coords> = Vec::new();
    let mut y: i16 = -m;
    while y <= m
        invariant
            0 <= m <= 255,
            -m <= y <= m + 1,
            res@ == box_rows(m as int, ring, (y + m) as nat),
        decreases m + 1 - y,
    {
        let ghost before = res@;
        let mut x: i16 = -m;
        while x <= m
            invariant
                0 <= m <= 255,
                -m <= y <= m,
                -m <= x <= m + 1,
                res@ == before + box_row(m as int, ring, y as int, (x + m) as nat),
            decreases m + 1 - x,
        {
            let keep = if ring {
                let ax: i16 = if x < 0 { -x } else { x };
                let ay: i16 = if y < 0 { -y } else { y };
                (if ax < ay { ay } else { ax }) == m
            } else {
                !(x == 0 && y == 0)
            };
            if keep {
                res.push(Coords::new(x, y));
            }
            proof {
                let c = (x + m) as nat;
                assert(box_row(m as int, ring, y as int, c + 1) == (if box_keeps(m as int, ring, x as int, y as int) {
                    box_row(m as int, ring, y as int, c).push(Coords::spec_new(x as int, y as int))
                } else {
                    box_row(m as int, ring, y as int, c)
                }));
                assert(res@ =~= before + box_row(m as int, ring, y as int, c + 1));
            }
            x = x + 1;
        }
        proof {
            let r = (y + m) as nat;
            assert(box_rows(m as int, ring, r + 1) == box_rows(m as int, ring, r) + box_row(m as int, ring, y as int, (2 * m + 1) as nat));
        }
        y = y + 1;
    }
    res
}

} // verus!
