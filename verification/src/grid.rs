//! The board: which tile holds what, and how agents move across it.
use vstd::prelude::*;
use crate::coords::{Coords, fits_i16};
use crate::effect::{EffectTarget, lemma_target_tiles_bounded};
use crate::random::shuffle;
use rand::rngs::StdRng;
use crate::maps::{
    EntityMap, TileMap, entity_entries, entity_map_get, entity_map_insert, entity_map_new,
    tile_entries, tile_map_contains_key, tile_map_get, tile_map_insert, tile_map_new,
    tile_map_remove,
};
use crate::tile::{TileDirection, TileIterator, TileObject, TileObjectKind, dim_bound, dim_to_i16};
use crate::text::{decimal, decimal_width2, digit, digit_char, push_char, push_decimal, push_decimal_width2};

verus! {

/// Side of a tile in world units.
pub const TILE_SIZE: u16 = 64;

/// Why an entity cannot be placed on a tile.
#[derive(Clone, Copy, Debug, PartialEq, Eq, Structural)]
pub enum PlaceError {
    Taken,
    OutOfBounds,
}

/// Why an entity cannot be moved to a tile.
#[derive(Clone, Copy, Debug, PartialEq, Eq, Structural)]
pub enum MoveError {
    Taken,
    OutOfBounds,
    EntityLookupFailed,
}

impl From<PlaceError> for MoveError {
    fn from(place_err: PlaceError) -> (r: Self) {
        match place_err {
            PlaceError::Taken => MoveError::Taken,
            PlaceError::OutOfBounds => MoveError::OutOfBounds,
        }
    }
}

impl vstd::std_specs::convert::FromSpecImpl<PlaceError> for MoveError {
    open spec fn obeys_from_spec() -> bool {
        true
    }

    open spec fn from_spec(v: PlaceError) -> MoveError {
        match v {
            PlaceError::Taken => MoveError::Taken,
            PlaceError::OutOfBounds => MoveError::OutOfBounds,
        }
    }
}

/// The board: a `width` x `heigth` rectangle of tiles, each holding at most one object, and
/// the tile each entity was last placed on.
pub struct Grid {
    width: u16,
    heigth: u16,
    occupied_tiles: TileMap,
    entities: EntityMap,
}

/// `center + offset`, as a spec.
pub open spec fn shifted(center: Coords, offset: Coords) -> Coords {
    center.offset(offset.x as int, offset.y as int)
}

/// Every tile `center + t` for `t` within `far` of the origin is representable.
pub open spec fn offset_room(center: Coords, far: int) -> bool {
    fits_i16(center.x - far) && fits_i16(center.x + far) && fits_i16(center.y - far)
        && fits_i16(center.y + far)
}

/// The allowed tiles as a sequence.
pub open spec fn opt_seq(allowed: Option<Vec<Coords>>) -> Option<Seq<Coords>> {
    match allowed {
        Some(v) => Some(v@),
        None => None,
    }
}

/// The steps an agent may take in the given direction, in the order they are tried.
pub open spec fn dir_offsets(dir: TileDirection) -> Seq<Coords> {
    match dir {
        TileDirection::Orthogonal => seq![
            Coords::spec_new(0, -1),
            Coords::spec_new(1, 0),
            Coords::spec_new(0, 1),
            Coords::spec_new(-1, 0),
        ],
        TileDirection::Diagonal => seq![
            Coords::spec_new(1, 1),
            Coords::spec_new(1, -1),
            Coords::spec_new(-1, -1),
            Coords::spec_new(-1, 1),
        ],
        TileDirection::All => seq![
            Coords::spec_new(0, -1),
            Coords::spec_new(1, -1),
            Coords::spec_new(1, 0),
            Coords::spec_new(1, 1),
            Coords::spec_new(0, 1),
            Coords::spec_new(-1, 1),
            Coords::spec_new(-1, 0),
            Coords::spec_new(-1, -1),
        ],
    }
}

/// Whether `(dx, dy)` is a single step in the given direction: one tile along an axis
/// (orthogonal), one tile along both axes (diagonal), or either (all).
pub open spec fn is_unit_step(dir: TileDirection, dx: int, dy: int) -> bool {
    match dir {
        TileDirection::Orthogonal => (dx == 0 && (dy == 1 || dy == -1)) || (dy == 0 && (dx == 1
            || dx == -1)),
        TileDirection::Diagonal => (dx == 1 || dx == -1) && (dy == 1 || dy == -1),
        TileDirection::All => -1 <= dx <= 1 && -1 <= dy <= 1 && !(dx == 0 && dy == 0),
    }
}

/// The steps of a direction are exactly its single steps, each once: four orthogonal, four
/// diagonal, or all eight.
pub proof fn lemma_dir_offsets_are_unit_steps(dir: TileDirection, d: Coords)
    ensures
        dir_offsets(dir).contains(d) <==> is_unit_step(dir, d.x as int, d.y as int),
        dir_offsets(dir).no_duplicates(),
        dir_offsets(dir).len() == (if dir is All { 8int } else { 4int }),
{
    let ds = dir_offsets(dir);
    if ds.contains(d) {
        let k = choose|k: int| 0 <= k < ds.len() && ds[k] == d;
        assert(0 <= k < 8);
    }
    if is_unit_step(dir, d.x as int, d.y as int) {
        match dir {
            TileDirection::Orthogonal => {
                if d.x == 0 && d.y == -1 { assert(ds[0] == d); }
                else if d.x == 1 && d.y == 0 { assert(ds[1] == d); }
                else if d.x == 0 && d.y == 1 { assert(ds[2] == d); }
                else { assert(ds[3] == d); }
            },
            TileDirection::Diagonal => {
                if d.x == 1 && d.y == 1 { assert(ds[0] == d); }
                else if d.x == 1 && d.y == -1 { assert(ds[1] == d); }
                else if d.x == -1 && d.y == -1 { assert(ds[2] == d); }
                else { assert(ds[3] == d); }
            },
            TileDirection::All => {
                if d.x == 0 && d.y == -1 { assert(ds[0] == d); }
                else if d.x == 1 && d.y == -1 { assert(ds[1] == d); }
                else if d.x == 1 && d.y == 0 { assert(ds[2] == d); }
                else if d.x == 1 && d.y == 1 { assert(ds[3] == d); }
                else if d.x == 0 && d.y == 1 { assert(ds[4] == d); }
                else if d.x == -1 && d.y == 1 { assert(ds[5] == d); }
                else if d.x == -1 && d.y == 0 { assert(ds[6] == d); }
                else { assert(ds[7] == d); }
            },
        }
    }
}

/// The steps an agent may take in the given direction.
pub fn directions(dir: TileDirection) -> (r: Vec<Coords>)
    ensures
        r@ == dir_offsets(dir),
        forall|d: Coords| #[trigger] r@.contains(d) <==> is_unit_step(dir, d.x as int, d.y as int),
        r@.no_duplicates(),
{
    proof {
        assert forall|d: Coords| #[trigger] dir_offsets(dir).contains(d) <==> is_unit_step(dir, d.x as int, d.y as int) by {
            lemma_dir_offsets_are_unit_steps(dir, d);
        }
        lemma_dir_offsets_are_unit_steps(dir, Coords::spec_new(0, 0));
    }
    let r = match dir {
        TileDirection::Orthogonal => vec![
            Coords::new(0, -1),
            Coords::new(1, 0),
            Coords::new(0, 1),
            Coords::new(-1, 0),
        ],
        TileDirection::Diagonal => vec![
            Coords::new(1, 1),
            Coords::new(1, -1),
            Coords::new(-1, -1),
            Coords::new(-1, 1),
        ],
        TileDirection::All => vec![
            Coords::new(0, -1),
            Coords::new(1, -1),
            Coords::new(1, 0),
            Coords::new(1, 1),
            Coords::new(0, 1),
            Coords::new(-1, 1),
            Coords::new(-1, 0),
            Coords::new(-1, -1),
        ],
    };
    assert(r@ =~= dir_offsets(dir));
    r
}

/// Whether `c` is among the elements of `v`.
pub fn contains_coords(v: &Vec<Coords>, c: &Coords) -> (r: bool)
    ensures
        r == v@.contains(*c),
{
    let mut i: usize = 0;
    while i < v.len()
        invariant
            i <= v@.len(),
            forall|j: int| 0 <= j < i ==> v@[j] != *c,
        decreases v@.len() - i,
    {
        if v[i] == *c {
            return true;
        }
        i = i + 1;
    }
    false
}

/// What a grid holds: its size, the object on each occupied tile (by tile key), and the tile
/// each entity was last placed on or moved to.
#[verifier::ext_equal]
pub struct GridView {
    pub width: u16,
    pub height: u16,
    pub tiles: Map<(i16, i16), TileObject>,
    pub entities: Map<u64, (i16, i16)>,
}

/// The coordinates of a tile key.
pub open spec fn key_coords(k: (i16, i16)) -> Coords {
    Coords::spec_new(k.0 as int, k.1 as int)
}

impl GridView {
    pub open spec fn in_bounds(self, c: Coords) -> bool {
        &&& c.x >= 0
        &&& c.y >= 0
        &&& c.x < dim_bound(self.width)
        &&& c.y < dim_bound(self.height)
    }

    /// The grid is well formed: it has tiles, and every object and every recorded entity
    /// position lies on the board.
    pub open spec fn wf(self) -> bool {
        &&& self.width > 0
        &&& self.height > 0
        &&& forall|k: (i16, i16)| #[trigger] self.tiles.dom().contains(k) ==> self.in_bounds(key_coords(k))
        &&& forall|e: u64| #[trigger] self.entities.dom().contains(e) ==> self.in_bounds(
            key_coords(self.entities[e]),
        )
    }

    pub open spec fn occupied(self, c: Coords) -> bool {
        self.tiles.dom().contains(c.key())
    }

    /// The object on a tile, if any.
    pub open spec fn tile_at(self, c: Coords) -> Option<TileObject> {
        if self.occupied(c) { Some(self.tiles[c.key()]) } else { None }
    }

    /// The tile an entity was last placed on or moved to, if any.
    pub open spec fn position_of(self, e: u64) -> Option<Coords> {
        if self.entities.dom().contains(e) { Some(key_coords(self.entities[e])) } else { None }
    }

    /// Whether an object can be placed on a tile: it must lie on the board and be free.
    pub open spec fn place_result(self, c: Coords) -> Result<(), PlaceError> {
        if !self.in_bounds(c) {
            Err(PlaceError::OutOfBounds)
        } else if self.occupied(c) {
            Err(PlaceError::Taken)
        } else {
            Ok(())
        }
    }

    /// The grid after placing `te` on `c`.
    pub open spec fn placed(self, te: TileObject, c: Coords) -> GridView {
        GridView {
            tiles: self.tiles.insert(c.key(), te),
            entities: self.entities.insert(te.entity, c.key()),
            ..self
        }
    }

    /// Moving `entity` to `coords` cannot fail halfway: when the entity is recorded on a tile
    /// and the target is free, the recorded tile still holds an object to move.
    pub open spec fn move_defined(self, entity: u64, coords: Coords) -> bool {
        (self.place_result(coords) is Ok && self.entities.dom().contains(entity))
            ==> self.tiles.dom().contains(self.entities[entity])
    }

    /// What moving `entity` to `coords` answers.
    pub open spec fn move_result(self, entity: u64, coords: Coords) -> Result<(), MoveError> {
        match self.place_result(coords) {
            Err(PlaceError::OutOfBounds) => Err(MoveError::OutOfBounds),
            Err(PlaceError::Taken) => Err(MoveError::Taken),
            Ok(()) => if self.entities.dom().contains(entity) {
                Ok(())
            } else {
                Err(MoveError::EntityLookupFailed)
            },
        }
    }

    /// The grid after moving the object on `entity`'s tile to `coords`.
    pub open spec fn moved(self, entity: u64, coords: Coords) -> GridView {
        let prev = self.entities[entity];
        let obj = self.tiles[prev];
        GridView {
            tiles: self.tiles.remove(prev).insert(coords.key(), obj),
            entities: self.entities.insert(obj.entity, coords.key()),
            ..self
        }
    }

    /// The grid after taking the object off `c`.
    pub open spec fn cleared(self, c: Coords) -> GridView {
        GridView { tiles: self.tiles.remove(c.key()), ..self }
    }
}

impl View for Grid {
    type V = GridView;

    closed spec fn view(&self) -> GridView {
        GridView {
            width: self.width,
            height: self.heigth,
            tiles: tile_entries(self.occupied_tiles),
            entities: entity_entries(self.entities),
        }
    }
}

/// A step in any direction from `c` is representable.
pub open spec fn step_room(c: Coords) -> bool {
    c.can_offset(-1, -1) && c.can_offset(1, 1)
}

/// `pathfinding::directed::dijkstra::dijkstra` over the grid's moves, with every move costing 1:
/// a shortest walk from `start` to one of the `goals` (its cost dropped), or `None` when no
/// walk reaches one of them.
#[verifier::external_body]
fn shortest_walk(
    grid: &Grid,
    start: Coords,
    target_tile: Coords,
    move_dir: TileDirection,
    goals: &Vec<Coords>,
    rng: &mut StdRng,
) -> (r: Option<Vec<Coords>>)
    requires
        step_room(start),
        step_room(target_tile),
    ensures
        r matches Some(w) ==> {
            &&& grid.reaches(w@, start, target_tile, move_dir, goals@)
            &&& forall|w2: Seq<Coords>| #[trigger] grid.reaches(w2, start, target_tile, move_dir, goals@)
                ==> w@.len() <= w2.len()
        },
        r is None ==> forall|w2: Seq<Coords>|
            !#[trigger] grid.reaches(w2, start, target_tile, move_dir, goals@),
{
    pathfinding::directed::dijkstra::dijkstra(
        &start,
        |tile: &Coords| grid.successors(*tile, target_tile, move_dir, rng),
        |tile: &Coords| contains_coords(goals, tile),
    ).map(|found| found.0)
}

/// Whether `v` is among the elements of `vs`.
pub fn contains_u64(vs: &Vec<u64>, v: u64) -> (r: bool)
    ensures
        r == vs@.contains(v),
{
    let mut i: usize = 0;
    while i < vs.len()
        invariant
            i <= vs@.len(),
            forall|j: int| 0 <= j < i ==> vs@[j] != v,
        decreases vs@.len() - i,
    {
        if vs[i] == v {
            return true;
        }
        i = i + 1;
    }
    false
}

impl Grid {
    pub open spec fn width(&self) -> u16 {
        self@.width
    }

    pub open spec fn height(&self) -> u16 {
        self@.height
    }

    /// The objects standing on tiles, by tile key.
    pub open spec fn tiles(&self) -> Map<(i16, i16), TileObject> {
        self@.tiles
    }

    /// The tile each entity was last placed on or moved to.
    pub open spec fn entities(&self) -> Map<u64, (i16, i16)> {
        self@.entities
    }

    pub open spec fn in_bounds(&self, c: Coords) -> bool {
        self@.in_bounds(c)
    }

    /// Every grid is well formed (see [`GridView::wf`]): its objects and recorded entity
    /// positions lie on the board.
    #[verifier::type_invariant]
    pub open spec fn wf(&self) -> bool {
        self@.wf()
    }

    pub open spec fn occupied(&self, c: Coords) -> bool {
        self@.occupied(c)
    }

    /// What `can_place_at` answers for a tile.
    pub open spec fn place_result(&self, c: Coords) -> Result<(), PlaceError> {
        self@.place_result(c)
    }

    /// An empty grid of the given size; neither dimension may be 0.
    pub fn new(width: u16, heigth: u16) -> (r: Grid)
        requires
            width != 0,
            heigth != 0,
        ensures
            r.width() == width,
            r.height() == heigth,
            r.tiles() == Map::<(i16, i16), TileObject>::empty(),
            r.entities() == Map::<u64, (i16, i16)>::empty(),
    {
        Grid { width, heigth, occupied_tiles: tile_map_new(), entities: entity_map_new() }
    }

    /// The grid's width and height in tiles.
    pub fn grid_size(&self) -> (r: (u16, u16))
        ensures
            r == (self.width(), self.height()),
    {
        (self.width, self.heigth)
    }

    /// The object standing on a tile, if any.
    pub fn coords_to_tile_entity(&self, coords: Coords) -> (r: Option<TileObject>)
        ensures
            r == (if self.occupied(coords) { Some(self.tiles()[coords.key()]) } else { None }),
    {
        tile_map_get(&self.occupied_tiles, coords.to_key())
    }

    /// Whether a player or an enemy stands on a tile.
    pub fn contains_agent(&self, coords: Coords) -> (r: bool)
        ensures
            r == (self.occupied(coords) && (self.tiles()[coords.key()].kind is Player
                || self.tiles()[coords.key()].kind is Enemy)),
    {
        match self.coords_to_tile_entity(coords) {
            Some(tile_entity) => match tile_entity.kind {
                TileObjectKind::Player | TileObjectKind::Enemy => true,
                TileObjectKind::Wall => false,
            },
            None => false,
        }
    }

    /// Whether a die (the player or an enemy) stands on a tile.
    pub fn contains_die(&self, coords: Coords) -> (r: bool)
        ensures
            r == (self.occupied(coords) && (self.tiles()[coords.key()].kind is Player
                || self.tiles()[coords.key()].kind is Enemy)),
    {
        self.contains_agent(coords)
    }

    /// The tile an entity was last placed on, if any.
    pub fn entity_to_coords(&self, entity: u64) -> (r: Option<Coords>)
        ensures
            r == (if self.entities().dom().contains(entity) {
                Some(Coords::spec_new(self.entities()[entity].0 as int, self.entities()[entity].1 as int))
            } else {
                None
            }),
    {
        match entity_map_get(&self.entities, entity) {
            Some(k) => Some(Coords::new(k.0, k.1)),
            None => None,
        }
    }

    /// Whether a tile lies on the board.
    pub fn within_bounds(&self, tile: Coords) -> (r: bool)
        ensures
            r == self.in_bounds(tile),
    {
        tile.min_element() >= 0 && tile.x < dim_to_i16(self.width) && tile.y < dim_to_i16(
            self.heigth,
        )
    }

    /// Whether an entity can be placed on a tile: it must lie on the board and be free.
    pub fn can_place_at(&self, coords: Coords) -> (r: Result<(), PlaceError>)
        ensures
            r == self.place_result(coords),
    {
        if !self.within_bounds(coords) {
            return Err(PlaceError::OutOfBounds);
        } else if tile_map_contains_key(&self.occupied_tiles, coords.to_key()) {
            return Err(PlaceError::Taken);
        }
        Ok(())
    }

    /// Puts an object on a free tile of the board and records where its entity stands.
    pub fn place_entity(&mut self, tile_entity: TileObject, coords: Coords) -> (r: Result<(), PlaceError>)
        ensures
            r == old(self).place_result(coords),
            final(self).width() == old(self).width(),
            final(self).height() == old(self).height(),
            r is Ok ==> final(self)@ == old(self)@.placed(tile_entity, coords),
            r is Err ==> final(self)@ == old(self)@,
            r is Ok ==> final(self).tiles() == old(self).tiles().insert(coords.key(), tile_entity),
            r is Ok ==> final(self).entities() == old(self).entities().insert(
                tile_entity.entity,
                coords.key(),
            ),
            r is Err ==> final(self).tiles() == old(self).tiles(),
            r is Err ==> final(self).entities() == old(self).entities(),
    {
        match self.can_place_at(coords) {
            Ok(()) => {},
            Err(e) => return Err(e),
        }
        proof {
            use_type_invariant(&*self);
        }
        let ghost pre = *self;
        assert(pre.place_result(coords) is Ok);
        let mut entities = entity_map_new();
        std::mem::swap(&mut entities, &mut self.entities);
        let mut tiles = tile_map_new();
        std::mem::swap(&mut tiles, &mut self.occupied_tiles);
        entity_map_insert(&mut entities, tile_entity.entity, coords.to_key());
        tile_map_insert(&mut tiles, coords.to_key(), tile_entity);
        let ghost post = GridView {
            width: pre@.width,
            height: pre@.height,
            tiles: tile_entries(tiles),
            entities: entity_entries(entities),
        };
        proof {
            assert(key_coords(coords.key()) == coords);
            assert(post == pre@.placed(tile_entity, coords));
            lemma_place_then_lookup(pre@, tile_entity, coords);
        }
        self.occupied_tiles = tiles;
        self.entities = entities;
        Ok(())
    }

    /// See [`GridView::move_defined`].
    pub open spec fn move_defined(&self, entity: u64, coords: Coords) -> bool {
        self@.move_defined(entity, coords)
    }

    /// What `move_entity` answers.
    pub open spec fn move_result(&self, entity: u64, coords: Coords) -> Result<(), MoveError> {
        self@.move_result(entity, coords)
    }

    /// Moves the object of an entity from its tile to a free tile of the board.
    pub fn move_entity(&mut self, entity: u64, coords: Coords) -> (r: Result<(), MoveError>)
        requires
            old(self).move_defined(entity, coords),
        ensures
            r == old(self).move_result(entity, coords),
            final(self).width() == old(self).width(),
            final(self).height() == old(self).height(),
            r is Err ==> final(self).tiles() == old(self).tiles(),
            r is Err ==> final(self).entities() == old(self).entities(),
            r is Ok ==> final(self)@ == old(self)@.moved(entity, coords),
            r is Err ==> final(self)@ == old(self)@,
            r is Ok ==> {
                let prev = old(self).entities()[entity];
                let moved = old(self).tiles()[prev];
                &&& final(self).tiles() == old(self).tiles().remove(prev).insert(coords.key(), moved)
                &&& final(self).entities() == old(self).entities().insert(moved.entity, coords.key())
            },
    {
        match self.can_place_at(coords) {
            Ok(()) => {},
            Err(e) => return Err(MoveError::from(e)),
        }
        match entity_map_get(&self.entities, entity) {
            Some(prev_tile) => {
                let prev = Coords::new(prev_tile.0, prev_tile.1);
                match self.clear_tile(prev) {
                    Some(tile_entity) => {
                        match self.place_entity(tile_entity, coords) {
                            Ok(()) => {},
                            Err(e) => return Err(MoveError::from(e)),
                        }
                    },
                    None => {
                        assert(false);
                        return Err(MoveError::EntityLookupFailed);
                    },
                }
            },
            None => return Err(MoveError::EntityLookupFailed),
        }
        Ok(())
    }

    /// Takes the object off a tile, if any; the entity's recorded tile is left as it was.
    pub fn clear_tile(&mut self, coords: Coords) -> (r: Option<TileObject>)
        ensures
            r == (if old(self).occupied(coords) { Some(old(self).tiles()[coords.key()]) } else { None }),
            final(self)@ == old(self)@.cleared(coords),
            final(self).tiles() == old(self).tiles().remove(coords.key()),
            final(self).entities() == old(self).entities(),
            final(self).width() == old(self).width(),
            final(self).height() == old(self).height(),
    {
        proof {
            use_type_invariant(&*self);
        }
        let ghost pre = *self;
        let mut tiles = tile_map_new();
        std::mem::swap(&mut tiles, &mut self.occupied_tiles);
        let r = tile_map_remove(&mut tiles, coords.to_key());
        proof {
            let post = GridView { tiles: tile_entries(tiles), ..pre@ };
            assert(post == pre@.cleared(coords));
            assert forall|k: (i16, i16)| #[trigger] post.tiles.dom().contains(k) implies post.in_bounds(key_coords(k)) by {
                assert(pre@.tiles.dom().contains(k));
            }
        }
        self.occupied_tiles = tiles;
        r
    }

    /// Whether `p` counts as an effect tile: it holds an object of the wanted kind (or, with no
    /// kind given, an object could be placed on it), or it is an allowed tile of the board.
    pub open spec fn is_effect_tile(
        &self,
        p: Coords,
        allowed: Option<Seq<Coords>>,
        kind: Option<TileObjectKind>,
    ) -> bool {
        (match kind {
            Some(k) => self.occupied(p) && self.tiles()[p.key()].kind == k,
            None => self.place_result(p) is Ok,
        }) || (self.in_bounds(p) && (allowed matches Some(a) && a.contains(p)))
    }

    /// The effect tiles among `center + ts[0..n]`, in that order.
    pub open spec fn effect_scan(
        &self,
        center: Coords,
        ts: Seq<Coords>,
        n: nat,
        allowed: Option<Seq<Coords>>,
        kind: Option<TileObjectKind>,
    ) -> Seq<Coords>
        decreases n,
    {
        if n == 0 {
            Seq::empty()
        } else {
            let prev = self.effect_scan(center, ts, (n - 1) as nat, allowed, kind);
            let p = shifted(center, ts[n - 1]);
            if self.is_effect_tile(p, allowed, kind) {
                prev.push(p)
            } else {
                prev
            }
        }
    }

    /// The tiles an effect cast from `center` acts on.
    pub open spec fn spec_effect_tiles(
        &self,
        center: Coords,
        allowed: Option<Seq<Coords>>,
        effect_target: EffectTarget,
        kind: Option<TileObjectKind>,
    ) -> Seq<Coords> {
        let ts = effect_target.spec_target_tiles();
        self.effect_scan(center, ts, ts.len(), allowed, kind)
    }

    /// The tiles an effect cast from `center` acts on: among the tiles it reaches, those
    /// holding an object of `allowed_entity_kind` (or free board tiles, when no kind is given),
    /// together with the reached board tiles listed in `allowed_occupied_tiles`.
    fn effect_tiles(
        &self,
        center: Coords,
        allowed_occupied_tiles: Option<Vec<Coords>>,
        effect_target: EffectTarget,
        allowed_entity_kind: Option<TileObjectKind>,
    ) -> (r: Vec<Coords>)
        requires
            offset_room(center, effect_target.reach.far()),
        ensures
            r@ == self.spec_effect_tiles(
                center,
                opt_seq(allowed_occupied_tiles),
                effect_target,
                allowed_entity_kind,
            ),
    {
        let ts = effect_target.target_tiles();
        proof {
            lemma_target_tiles_bounded(effect_target);
        }
        let ghost allowed = opt_seq(allowed_occupied_tiles);
        let mut res: Vec<Coords> = Vec::new();
        let mut i: usize = 0;
        while i < ts.len()
            invariant
                ts@ == effect_target.spec_target_tiles(),
                offset_room(center, effect_target.reach.far()),
                allowed == opt_seq(allowed_occupied_tiles),
                i <= ts@.len(),
                res@ == self.effect_scan(center, ts@, i as nat, allowed, allowed_entity_kind),
                forall|j: int| 0 <= j < ts@.len() ==> {
                    let t = #[trigger] ts@[j];
                    -effect_target.reach.far() <= t.x <= effect_target.reach.far()
                        && -effect_target.reach.far() <= t.y <= effect_target.reach.far()
                },
            decreases ts@.len() - i,
        {
            let t = ts[i];
            let target = center.plus(t);
            let by_kind = match allowed_entity_kind {
                Some(kind) => match self.coords_to_tile_entity(target) {
                    Some(entity) => entity.kind == kind,
                    None => false,
                },
                None => self.can_place_at(target).is_ok(),
            };
            let by_allowance = self.within_bounds(target) && match &allowed_occupied_tiles {
                Some(allowed_tiles) => contains_coords(allowed_tiles, &target),
                None => false,
            };
            if by_kind || by_allowance {
                res.push(target);
            }
            i = i + 1;
        }
        res
    }

    /// The tiles an effect cast from `center` acts on when it may also act on `start_tile`.
    fn effect_tiles_with_start_tile(
        &self,
        center: Coords,
        start_tile: Coords,
        effect_target: EffectTarget,
    ) -> (r: Vec<Coords>)
        requires
            offset_room(center, effect_target.reach.far()),
        ensures
            r@ == self.spec_effect_tiles(center, Some(seq![start_tile]), effect_target, None),
    {
        let allowed = vec![start_tile];
        assert(opt_seq(Some(allowed)) == Some(seq![start_tile]));
        self.effect_tiles(center, Some(allowed), effect_target, None)
    }

    /// Whether an effect cast from `center` reaches an object of the given kind.
    pub fn effect_tiles_contain_entity_kind(
        &self,
        center: Coords,
        effect_target: EffectTarget,
        entity_kind: TileObjectKind,
    ) -> (r: bool)
        requires
            offset_room(center, effect_target.reach.far()),
        ensures
            r == exists|j: int| 0 <= j < effect_target.spec_target_tiles().len() && {
                let p = #[trigger] shifted(center, effect_target.spec_target_tiles()[j]);
                self.occupied(p) && self.tiles()[p.key()].kind == entity_kind
            },
    {
        let effect_tiles = self.effect_tiles(center, None, effect_target, Some(entity_kind));
        proof {
            let ts = effect_target.spec_target_tiles();
            self.lemma_effect_scan_nonempty(center, ts, ts.len(), None, Some(entity_kind));
            if effect_tiles@.len() > 0 {
                let j = choose|j: int| 0 <= j < ts.len() && #[trigger] self.is_effect_tile(shifted(center, ts[j]), None, Some(entity_kind));
                let p = shifted(center, ts[j]);
                assert(self.occupied(p) && self.tiles()[p.key()].kind == entity_kind);
            } else {
                assert forall|j: int| 0 <= j < ts.len() implies !{
                    let p = #[trigger] shifted(center, ts[j]);
                    self.occupied(p) && self.tiles()[p.key()].kind == entity_kind
                } by {
                    assert(!self.is_effect_tile(shifted(center, ts[j]), None, Some(entity_kind)));
                }
            }
        }
        effect_tiles.len() != 0
    }

    /// A scan finds something exactly when one of the scanned tiles is an effect tile.
    proof fn lemma_effect_scan_nonempty(
        &self,
        center: Coords,
        ts: Seq<Coords>,
        n: nat,
        allowed: Option<Seq<Coords>>,
        kind: Option<TileObjectKind>,
    )
        requires
            n <= ts.len(),
        ensures
            (self.effect_scan(center, ts, n, allowed, kind).len() > 0) == exists|j: int|
                0 <= j < n && #[trigger] self.is_effect_tile(shifted(center, ts[j]), allowed, kind),
        decreases n,
    {
        if n > 0 {
            self.lemma_effect_scan_nonempty(center, ts, (n - 1) as nat, allowed, kind);
            if self.is_effect_tile(shifted(center, ts[n - 1]), allowed, kind) {
                assert(self.is_effect_tile(shifted(center, ts[(n - 1) as int]), allowed, kind));
            } else {
                assert forall|j: int| 0 <= j < n && #[trigger] self.is_effect_tile(shifted(center, ts[j]), allowed, kind)
                    implies j < n - 1 by {}
            }
        }
    }

    /// Whether `p` may be stepped onto: it is the allowed tile, or an object could be placed there.
    pub open spec fn is_step_target(&self, p: Coords, allowed: Option<Coords>) -> bool {
        allowed == Some(p) || self.place_result(p) is Ok
    }

    /// The tiles among `tile + ds[0..n]` that may be stepped onto, in that order.
    pub open spec fn neighbour_scan(
        &self,
        tile: Coords,
        allowed: Option<Coords>,
        ds: Seq<Coords>,
        n: nat,
    ) -> Seq<Coords>
        decreases n,
    {
        if n == 0 {
            Seq::empty()
        } else {
            let prev = self.neighbour_scan(tile, allowed, ds, (n - 1) as nat);
            let p = shifted(tile, ds[n - 1]);
            if self.is_step_target(p, allowed) {
                prev.push(p)
            } else {
                prev
            }
        }
    }

    /// The tiles an agent on `tile` may step onto in one move.
    pub open spec fn neighbour_candidates(
        &self,
        tile: Coords,
        allowed: Option<Coords>,
        dir: TileDirection,
    ) -> Seq<Coords> {
        self.neighbour_scan(tile, allowed, dir_offsets(dir), dir_offsets(dir).len())
    }

    /// One move from `a` to `b`, where the target tile may be stepped onto although occupied.
    pub open spec fn is_step(&self, a: Coords, b: Coords, target_tile: Coords, dir: TileDirection) -> bool {
        self.neighbour_candidates(a, Some(target_tile), dir).contains(b)
    }

    /// A sequence of tiles each one move away from the previous one.
    pub open spec fn is_walk(&self, w: Seq<Coords>, target_tile: Coords, dir: TileDirection) -> bool {
        &&& w.len() >= 1
        &&& forall|i: int| 0 <= i < w.len() - 1 ==> #[trigger] self.is_step(w[i], w[i + 1], target_tile, dir)
    }

    /// A walk from `start` that ends on one of the `goals`.
    pub open spec fn reaches(
        &self,
        w: Seq<Coords>,
        start: Coords,
        target_tile: Coords,
        dir: TileDirection,
        goals: Seq<Coords>,
    ) -> bool {
        &&& self.is_walk(w, target_tile, dir)
        &&& w[0] == start
        &&& goals.contains(w.last())
    }

    /// The tiles next to `tile` (in the given direction) an agent may step onto, in a random
    /// order: free board tiles, and the allowed tile whatever stands on it.
    fn neighbours(
        &self,
        tile: Coords,
        allowed_occupied_tile: Option<Coords>,
        move_dir: TileDirection,
        rng: &mut StdRng,
    ) -> (r: Vec<Coords>)
        requires
            step_room(tile),
        ensures
            r@.to_multiset() == self.neighbour_candidates(tile, allowed_occupied_tile, move_dir).to_multiset(),
    {
        let dirs = directions(move_dir);
        let mut neighbours: Vec<Coords> = Vec::new();
        let mut i: usize = 0;
        while i < dirs.len()
            invariant
                dirs@ == dir_offsets(move_dir),
                step_room(tile),
                i <= dirs@.len(),
                neighbours@ == self.neighbour_scan(tile, allowed_occupied_tile, dirs@, i as nat),
            decreases dirs@.len() - i,
        {
            let target = tile.plus(dirs[i]);
            let allowed = match allowed_occupied_tile {
                Some(t) => t == target,
                None => false,
            };
            if allowed || self.can_place_at(target).is_ok() {
                neighbours.push(target);
            }
            i = i + 1;
        }
        if neighbours.len() != 0 {
            shuffle(&mut neighbours, rng);
        }
        neighbours
    }

    /// The moves out of `tile` towards `target_tile`, each costing 1.
    pub fn successors(
        &self,
        tile: Coords,
        target_tile: Coords,
        move_dir: TileDirection,
        rng: &mut StdRng,
    ) -> (r: Vec<(Coords, usize)>)
        requires
            step_room(tile),
        ensures
            forall|i: int| 0 <= i < r@.len() ==> (#[trigger] r@[i]).1 == 1,
            r@.map_values(|e: (Coords, usize)| e.0).to_multiset() == self.neighbour_candidates(
                tile,
                Some(target_tile),
                move_dir,
            ).to_multiset(),
    {
        let ns = self.neighbours(tile, Some(target_tile), move_dir, rng);
        let mut res: Vec<(Coords, usize)> = Vec::new();
        let mut i: usize = 0;
        while i < ns.len()
            invariant
                i <= ns@.len(),
                res@.len() == i,
                forall|j: int| 0 <= j < i ==> (#[trigger] res@[j]) == (ns@[j], 1usize),
            decreases ns@.len() - i,
        {
            res.push((ns[i], 1));
            i = i + 1;
        }
        assert(res@.map_values(|e: (Coords, usize)| e.0) =~= ns@);
        res
    }

    /// A shortest path for an agent on `start` to a tile from which its effect reaches
    /// `target_tile`, without `start`; `None` when no such tile can be reached, or when
    /// `start` is already one. Ties between shortest paths are broken at random.
    pub fn path_to_reach_effect_target(
        &self,
        start: Coords,
        target_tile: Coords,
        move_dir: TileDirection,
        effect_target: EffectTarget,
        rng: &mut StdRng,
    ) -> (r: Option<Vec<Coords>>)
        requires
            step_room(start),
            step_room(target_tile),
            offset_room(target_tile, effect_target.reach.far()),
        ensures
            ({
                let goals = self.spec_effect_tiles(target_tile, Some(seq![start]), effect_target, None);
                &&& r is None <==> (goals.contains(start) || forall|w: Seq<Coords>|
                    !#[trigger] self.reaches(w, start, target_tile, move_dir, goals))
                &&& r matches Some(p) ==> {
                    &&& self.reaches(seq![start] + p@, start, target_tile, move_dir, goals)
                    &&& forall|w: Seq<Coords>| #[trigger] self.reaches(w, start, target_tile, move_dir, goals)
                        ==> p@.len() + 1 <= w.len()
                }
            }),
    {
        let effect_tiles = self.effect_tiles_with_start_tile(target_tile, start, effect_target);
        let ghost goals = effect_tiles@;
        proof {
            let single = seq![start];
            if goals.contains(start) {
                assert(self.reaches(single, start, target_tile, move_dir, goals));
            }
        }
        match shortest_walk(self, start, target_tile, move_dir, &effect_tiles, rng) {
            Some(path) => {
                if path.len() > 1 {
                    let mut rest: Vec<Coords> = Vec::new();
                    let mut i: usize = 1;
                    while i < path.len()
                        invariant
                            1 <= i <= path@.len(),
                            rest@ == path@.subrange(1, i as int),
                        decreases path@.len() - i,
                    {
                        rest.push(path[i]);
                        i = i + 1;
                    }
                    proof {
                        assert(seq![start] + rest@ =~= path@);
                        if goals.contains(start) {
                            assert(self.reaches(seq![start], start, target_tile, move_dir, goals));
                        }
                    }
                    Some(rest)
                } else {
                    None
                }
            },
            None => None,
        }
    }

    /// Walks every tile of the board, row by row.
    pub fn iter_tiles(&self) -> (r: TileIterator)
        ensures
            r.current() == Coords::spec_new(0, 0),
            r.width() == dim_bound(self.width()),
            r.height() == dim_bound(self.height()),
    {
        TileIterator::from_size((self.width, self.heigth))
    }
}

} // verus!

verus! {

/// Reading back a placement: after placing an object on a free board tile, the tile holds
/// that object, the object's entity is recorded there, the tile is taken, and every other
/// tile holds what it held before.
pub proof fn lemma_place_then_lookup(v: GridView, te: TileObject, c: Coords)
    requires
        v.place_result(c) is Ok,
    ensures
        v.placed(te, c).tile_at(c) == Some(te),
        v.placed(te, c).position_of(te.entity) == Some(c),
        v.placed(te, c).place_result(c) == Err::<(), PlaceError>(PlaceError::Taken),
        forall|d: Coords| d.key() != c.key() ==> #[trigger] v.placed(te, c).tile_at(d) == v.tile_at(d),
        v.wf() ==> v.placed(te, c).wf(),
{
    assert(key_coords(c.key()) == c);
    if v.wf() {
        let w = v.placed(te, c);
        assert forall|e: u64| #[trigger] w.entities.dom().contains(e) implies w.in_bounds(key_coords(w.entities[e])) by {
            if e != te.entity {
                assert(v.entities.dom().contains(e));
            }
        }
    }
}

/// Undoing a move: moving an entity from its tile to a free board tile puts its object
/// there and frees its old tile; moving it back then restores the grid exactly.
pub proof fn lemma_move_then_back(v: GridView, e: u64, from: Coords, to: Coords)
    requires
        v.wf(),
        v.position_of(e) == Some(from),
        v.tile_at(from) matches Some(o) && o.entity == e,
        v.place_result(to) is Ok,
    ensures
        v.move_defined(e, to),
        v.move_result(e, to) is Ok,
        v.moved(e, to).tile_at(to) == v.tile_at(from),
        v.moved(e, to).tile_at(from) is None,
        v.moved(e, to).position_of(e) == Some(to),
        v.moved(e, to).move_defined(e, from),
        v.moved(e, to).move_result(e, from) is Ok,
        v.moved(e, to).moved(e, from) == v,
{
    assert(key_coords(from.key()) == from);
    assert(key_coords(to.key()) == to);
    assert(from.key() != to.key());
    assert(v.entities[e] == from.key());
    assert(v.in_bounds(key_coords(v.entities[e])));
    let w = v.moved(e, to);
    assert(w.tiles.remove(to.key()).insert(from.key(), v.tiles[from.key()]) =~= v.tiles);
    assert(w.entities.insert(e, from.key()) =~= v.entities);
    assert(w.moved(e, from) =~= v);
}

/// Clearing undoes placing: taking the object off a tile it was just placed on leaves the
/// tiles exactly as they were before, and the tile free again.
pub proof fn lemma_place_then_clear(v: GridView, te: TileObject, c: Coords)
    requires
        v.place_result(c) is Ok,
    ensures
        v.placed(te, c).cleared(c).tiles == v.tiles,
        v.placed(te, c).cleared(c).place_result(c) is Ok,
{
    assert(v.placed(te, c).cleared(c).tiles =~= v.tiles);
}

/// The tiles among `tile + ds[0..n]` that may be stepped onto are exactly those tiles.
proof fn lemma_neighbour_scan_contains(grid: &Grid, tile: Coords, allowed: Option<Coords>, ds: Seq<Coords>, n: nat, p: Coords)
    requires
        n <= ds.len(),
    ensures
        grid.neighbour_scan(tile, allowed, ds, n).contains(p) <==> (grid.is_step_target(p, allowed)
            && exists|i: int| 0 <= i < n && p == shifted(tile, #[trigger] ds[i])),
    decreases n,
{
    broadcast use vstd::seq_lib::group_seq_properties;
    if n > 0 {
        lemma_neighbour_scan_contains(grid, tile, allowed, ds, (n - 1) as nat, p);
        if p == shifted(tile, ds[n - 1]) {
            assert(exists|i: int| 0 <= i < n && p == shifted(tile, #[trigger] ds[i]));
        }
        if exists|i: int| 0 <= i < n && p == shifted(tile, #[trigger] ds[i]) {
            let i = choose|i: int| 0 <= i < n && p == shifted(tile, #[trigger] ds[i]);
            if i < n - 1 {
                assert(exists|i2: int| 0 <= i2 < n - 1 && p == shifted(tile, #[trigger] ds[i2]));
            }
        }
    }
}

/// One move goes exactly one tile in the mover's directions: along an axis for orthogonal
/// movers, along both axes for diagonal ones (up-left, up-right, down-left or down-right),
/// either for movers in all directions; onto a free board tile or onto the target tile.
pub proof fn lemma_step_shapes(grid: &Grid, a: Coords, b: Coords, target_tile: Coords, dir: TileDirection)
    requires
        step_room(a),
    ensures
        grid.is_step(a, b, target_tile, dir) <==> (is_unit_step(dir, b.x - a.x, b.y - a.y)
            && (b == target_tile || grid.place_result(b) is Ok)),
{
    let ds = dir_offsets(dir);
    lemma_neighbour_scan_contains(grid, a, Some(target_tile), ds, ds.len(), b);
    if grid.is_step(a, b, target_tile, dir) {
        let i = choose|i: int| 0 <= i < ds.len() && b == shifted(a, #[trigger] ds[i]);
        lemma_dir_offsets_are_unit_steps(dir, ds[i]);
    }
    if is_unit_step(dir, b.x - a.x, b.y - a.y) && (b == target_tile || grid.place_result(b) is Ok) {
        let d = Coords::spec_new(b.x - a.x, b.y - a.y);
        lemma_dir_offsets_are_unit_steps(dir, d);
        let i = choose|i: int| 0 <= i < ds.len() && ds[i] == d;
        assert(b == shifted(a, ds[i]));
    }
}

/// Walking the tiles of a `w` x `h` board row by row visits exactly the board's tiles, each
/// once.
pub proof fn lemma_row_major_covers(v: GridView, w: int, h: int)
    requires
        w == dim_bound(v.width),
        h == dim_bound(v.height),
        w > 0,
        h > 0,
    ensures
        forall|i: int| 0 <= i < w * h ==> v.in_bounds(#[trigger] crate::tile::row_major(w, i)),
        forall|c: Coords| v.in_bounds(c) ==> #[trigger] crate::tile::row_major(w, c.y * w + c.x) == c
            && 0 <= c.y * w + c.x < w * h,
        forall|i: int, j: int| 0 <= i < j < w * h ==> crate::tile::row_major(w, i) != crate::tile::row_major(w, j),
{
    assert forall|i: int| 0 <= i < w * h implies v.in_bounds(#[trigger] crate::tile::row_major(w, i)) by {
        vstd::arithmetic::div_mod::lemma_fundamental_div_mod(i, w);
        vstd::arithmetic::div_mod::lemma_mod_pos_bound(i, w);
        vstd::arithmetic::div_mod::lemma_div_pos_is_pos(i, w);
        lemma_quotient_below(i, w, h);
    }
    assert forall|c: Coords| v.in_bounds(c) implies #[trigger] crate::tile::row_major(w, c.y * w + c.x) == c
        && 0 <= c.y * w + c.x < w * h by {
        vstd::arithmetic::div_mod::lemma_fundamental_div_mod_converse(c.y * w + c.x, w, c.y as int, c.x as int);
        assert(c.y * w + c.x < w * h) by (nonlinear_arith)
            requires 0 <= c.x < w, 0 <= c.y < h;
        assert(0 <= c.y * w) by (nonlinear_arith)
            requires 0 <= c.y, 0 < w;
    }
    assert forall|i: int, j: int| 0 <= i < j < w * h implies crate::tile::row_major(w, i) != crate::tile::row_major(w, j) by {
        vstd::arithmetic::div_mod::lemma_fundamental_div_mod(i, w);
        vstd::arithmetic::div_mod::lemma_fundamental_div_mod(j, w);
        vstd::arithmetic::div_mod::lemma_mod_pos_bound(i, w);
        vstd::arithmetic::div_mod::lemma_mod_pos_bound(j, w);
        vstd::arithmetic::div_mod::lemma_div_pos_is_pos(i, w);
        vstd::arithmetic::div_mod::lemma_div_pos_is_pos(j, w);
        lemma_quotient_below(i, w, h);
        lemma_quotient_below(j, w, h);
    }
}

/// An index below `w * h` lies in one of the first `h` rows.
proof fn lemma_quotient_below(i: int, w: int, h: int)
    requires
        0 <= i < w * h,
        w > 0,
    ensures
        0 <= i / w < h,
        0 <= i % w < w,
        i == w * (i / w) + i % w,
{
    vstd::arithmetic::div_mod::lemma_fundamental_div_mod(i, w);
    vstd::arithmetic::div_mod::lemma_mod_pos_bound(i, w);
    vstd::arithmetic::div_mod::lemma_div_pos_is_pos(i, w);
    let q = i / w;
    let r = i % w;
    assert(q < h) by (nonlinear_arith)
        requires i == w * q + r, 0 <= r < w, i < w * h, w > 0;
}

} // verus!

verus! {

/// The character that draws what stands on a tile.
pub open spec fn cell_char(t: Option<TileObject>) -> char {
    match t {
        Some(o) => match o.kind {
            TileObjectKind::Player => '@',
            TileObjectKind::Enemy => '!',
            TileObjectKind::Wall => '#',
        },
        None => '.',
    }
}

/// The column ruler: the last digit of each column index, for `w` columns.
pub open spec fn axis_digits(w: nat) -> Seq<char> {
    Seq::new(w, |i: int| digit(i % 10))
}

impl GridView {
    /// The first `n` tiles of row `y`, drawn.
    pub open spec fn row_cells(self, y: int, n: nat) -> Seq<char> {
        Seq::new(n, |x: int| cell_char(self.tile_at(Coords::spec_new(x, y))))
    }

    /// The first `n` rows of the drawing: each is its index right-aligned in two columns,
    /// its tiles, its index again and a line break.
    pub open spec fn map_rows(self, n: nat) -> Seq<char>
        decreases n,
    {
        if n == 0 {
            Seq::empty()
        } else {
            let y = (n - 1) as nat;
            self.map_rows(y) + decimal_width2(y) + self.row_cells(y as int, self.width as nat)
                + decimal(y) + seq!['\n']
        }
    }

    /// The whole drawing: the ruler, the rows, the ruler again. A grid too tall for tile
    /// coordinates has no rows to walk, and only its last row index is written.
    pub open spec fn ascii_map(self) -> Seq<char> {
        let top = seq![' ', '_'] + axis_digits(self.width as nat) + seq!['_', '\n'];
        let bottom = seq![' ', '_'] + axis_digits(self.width as nat) + seq!['_'];
        if dim_bound(self.height) <= 0 {
            top + seq![' ', '0'] + decimal((self.height - 1) as nat) + seq!['\n'] + bottom
        } else {
            top + self.map_rows(self.height as nat) + bottom
        }
    }
}

/// Appends `" _"`, the column ruler for `w` columns, and `"_"`.
fn push_ruler(s: &mut String, w: u16)
    ensures
        final(s)@ == old(s)@ + seq![' ', '_'] + axis_digits(w as nat) + seq!['_'],
{
    push_char(s, ' ');
    push_char(s, '_');
    let ghost start = s@;
    let mut i: u16 = 0;
    while i < w
        invariant
            i <= w,
            s@ == start + axis_digits(i as nat),
        decreases w - i,
    {
        push_char(s, digit_char(i % 10));
        proof {
            assert(axis_digits((i + 1) as nat) =~= axis_digits(i as nat).push(digit((i % 10) as int)));
        }
        i = i + 1;
    }
    push_char(s, '_');
    proof {
        assert(final(s)@ =~= old(s)@ + seq![' ', '_'] + axis_digits(w as nat) + seq!['_']);
    }
}

impl Grid {
    /// The board drawn in characters, for debugging: a ruler of column digits, then one line
    /// per row (`@` the player, `!` an enemy, `#` a wall, `.` a free tile) framed by the row's
    /// index, then the ruler again.
    pub fn ascii_debug_map(&self) -> (r: String)
        requires
            dim_bound(self.height()) <= 0 || self.width() <= i16::MAX,
        ensures
            r@ == self@.ascii_map(),
    {
        proof {
            use_type_invariant(self);
        }
        let mut s = String::new();
        push_ruler(&mut s, self.width);
        push_char(&mut s, '\n');
        let ghost top = s@;
        assert(top =~= seq![' ', '_'] + axis_digits(self.width as nat) + seq!['_', '\n']);
        let h = dim_to_i16(self.heigth);
        if h <= 0 {
            push_char(&mut s, ' ');
            push_char(&mut s, '0');
            push_decimal(&mut s, self.heigth - 1);
            push_char(&mut s, '\n');
            push_ruler(&mut s, self.width);
            assert(s@ =~= self@.ascii_map());
            return s;
        }
        let w: i16 = self.width as i16;
        let ghost v = self@;
        let mut y: i16 = 0;
        while y < h
            invariant
                0 <= y <= h,
                h == self.height(),
                w == self.width(),
                v == self@,
                s@ == top + v.map_rows(y as nat),
            decreases h - y,
        {
            push_decimal_width2(&mut s, y as u16);
            let ghost row_start = s@;
            let mut x: i16 = 0;
            while x < w
                invariant
                    0 <= x <= w,
                    0 <= y < h,
                    w == self.width(),
                    v == self@,
                    s@ == row_start + v.row_cells(y as int, x as nat),
                decreases w - x,
            {
                let c = match tile_map_get(&self.occupied_tiles, (x, y)) {
                    Some(o) => match o.kind {
                        TileObjectKind::Player => '@',
                        TileObjectKind::Enemy => '!',
                        TileObjectKind::Wall => '#',
                    },
                    None => '.',
                };
                push_char(&mut s, c);
                proof {
                    assert(Coords::spec_new(x as int, y as int).key() == (x, y));
                    assert(v.row_cells(y as int, (x + 1) as nat) =~= v.row_cells(y as int, x as nat).push(c));
                }
                x = x + 1;
            }
            push_decimal(&mut s, y as u16);
            push_char(&mut s, '\n');
            proof {
                assert(v.map_rows((y + 1) as nat) == v.map_rows(y as nat) + decimal_width2(y as nat)
                    + v.row_cells(y as int, v.width as nat) + decimal(y as nat) + seq!['\n']);
                assert(s@ =~= top + v.map_rows((y + 1) as nat));
            }
            y = y + 1;
        }
        push_ruler(&mut s, self.width);
        proof {
            assert(s@ =~= self@.ascii_map());
        }
        s
    }
}

} // verus!
