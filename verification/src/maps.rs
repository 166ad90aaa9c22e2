//! The hash maps a grid keeps its occupants in, and what the grid relies on of them.
use vstd::prelude::*;
use bevy::platform::collections::HashMap;
use bevy::platform::hash::FixedHasher;
use crate::tile::TileObject;

verus! {

#[verifier::external_type_specification]
#[verifier::external_body]
#[verifier::reject_recursive_types(K)]
#[verifier::reject_recursive_types(V)]
#[verifier::reject_recursive_types(S)]
pub struct ExHashMap<K, V, S>(HashMap<K, V, S>);

#[verifier::external_type_specification]
#[verifier::external_body]
pub struct ExFixedHasher(FixedHasher);

/// Map from a tile's coordinates to the object standing on it.
pub type TileMap = HashMap<(i16, i16), TileObject, FixedHasher>;

/// Map from an entity id to the coordinates of the tile it stands on.
pub type EntityMap = HashMap<u64, (i16, i16), FixedHasher>;

/// The key-value pairs held by a tile map.
pub uninterp spec fn tile_entries(m: HashMap<(i16, i16), TileObject, FixedHasher>) -> Map<(i16, i16), TileObject>;

/// The key-value pairs held by an entity map.
pub uninterp spec fn entity_entries(m: HashMap<u64, (i16, i16), FixedHasher>) -> Map<u64, (i16, i16)>;

/// A tile map holding nothing.
pub open spec fn no_tile_entries() -> Map<(i16, i16), TileObject> {
    Map::empty()
}

/// An entity map holding nothing.
pub open spec fn no_entity_entries() -> Map<u64, (i16, i16)> {
    Map::empty()
}

/// `HashMap::new`: an empty map.
#[verifier::external_body]
pub(crate) fn tile_map_new() -> (r: TileMap)
    ensures
        tile_entries(r) == no_tile_entries(),
{
    HashMap::new()
}

/// `HashMap::get`, copying the value out: the value stored under `k`, if any.
#[verifier::external_body]
pub(crate) fn tile_map_get(m: &TileMap, k: (i16, i16)) -> (r: Option<TileObject>)
    ensures
        r == (if tile_entries(*m).dom().contains(k) { Some(tile_entries(*m)[k]) } else { None }),
{
    m.get(&k).copied()
}

/// `HashMap::contains_key`: whether a value is stored under `k`.
#[verifier::external_body]
pub(crate) fn tile_map_contains_key(m: &TileMap, k: (i16, i16)) -> (r: bool)
    ensures
        r == tile_entries(*m).dom().contains(k),
{
    m.contains_key(&k)
}

/// `HashMap::insert`: stores `v` under `k`, replacing what was stored there.
#[verifier::external_body]
pub(crate) fn tile_map_insert(m: &mut TileMap, k: (i16, i16), v: TileObject)
    ensures
        tile_entries(*final(m)) == tile_entries(*old(m)).insert(k, v),
{
    m.insert(k, v);
}

/// `HashMap::remove`: takes out the value stored under `k`, if any.
#[verifier::external_body]
pub(crate) fn tile_map_remove(m: &mut TileMap, k: (i16, i16)) -> (r: Option<TileObject>)
    ensures
        r == (if tile_entries(*old(m)).dom().contains(k) { Some(tile_entries(*old(m))[k]) } else { None }),
        tile_entries(*final(m)) == tile_entries(*old(m)).remove(k),
{
    m.remove(&k)
}

/// `HashMap::new`: an empty map.
#[verifier::external_body]
pub(crate) fn entity_map_new() -> (r: EntityMap)
    ensures
        entity_entries(r) == no_entity_entries(),
{
    HashMap::new()
}

/// `HashMap::get`, copying the value out: the value stored under `k`, if any.
#[verifier::external_body]
pub(crate) fn entity_map_get(m: &EntityMap, k: u64) -> (r: Option<(i16, i16)>)
    ensures
        r == (if entity_entries(*m).dom().contains(k) { Some(entity_entries(*m)[k]) } else { None }),
{
    m.get(&k).copied()
}

/// `HashMap::insert`: stores `v` under `k`, replacing what was stored there.
#[verifier::external_body]
pub(crate) fn entity_map_insert(m: &mut EntityMap, k: u64, v: (i16, i16))
    ensures
        entity_entries(*final(m)) == entity_entries(*old(m)).insert(k, v),
{
    m.insert(k, v);
}

} // verus!
