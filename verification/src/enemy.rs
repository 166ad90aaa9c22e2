//! Enemies: their abilities, and the queue of what they do on their turn.
use vstd::prelude::*;
use std::collections::VecDeque;
use std::ops::RangeInclusive;
use crate::coords::Coords;
use crate::effect::{EffectDirection, EffectReach, EffectTarget};
use crate::grid::{Grid, offset_room, step_room};
use crate::movement::{MoveAction, Movement};
use crate::palette::{COL_PINK, COL_RED, COL_RED_LIGHT};
use crate::temp::TempChangeAction;
use crate::tile::{TileDirection, TileObjectKind};
use rand::rngs::StdRng;

verus! {

/// Marks an enemy.
#[derive(Clone, Copy, Debug, PartialEq, Eq, Structural)]
pub struct Enemy;

impl Enemy {
    /// The colors an enemy's body takes, at random.
    pub fn colors() -> (r: [u32; 3])
        ensures
            r@ == seq![COL_RED_LIGHT, COL_RED, COL_PINK],
    {
        let r = [COL_RED_LIGHT, COL_RED, COL_PINK];
        assert(r@ =~= seq![COL_RED_LIGHT, COL_RED, COL_PINK]);
        r
    }
}

/// The first and last frame of an animation in a sprite sheet.
#[derive(Clone, Copy, Debug, PartialEq, Eq, Structural)]
pub struct AnimationIndeces {
    pub start: usize,
    pub end: usize,
}

impl AnimationIndeces {
    /// The frames of the animation, `start..=end`.
    pub fn range(&self) -> (r: RangeInclusive<usize>)
        ensures
            r@.start == self.start,
            r@.end == self.end,
            !r@.exhausted,
    {
        RangeInclusive::new(self.start, self.end)
    }
}

/// What an enemy does when it acts: attack what its target reaches, raising the temperature.
#[derive(Clone, Copy, Debug, PartialEq, Eq, Structural)]
pub enum EnemyAbility {
    Attack { target: EffectTarget, temp_offset: i8 },
}

impl EnemyAbility {
    pub open spec fn spec_effect_target(self) -> EffectTarget {
        match self {
            EnemyAbility::Attack { target, .. } => target,
        }
    }

    /// How long the enemy takes to use the ability.
    pub fn action_duration_ms(&self) -> (r: u64)
        ensures
            r == 500,
    {
        match self {
            EnemyAbility::Attack { .. } => 500,
        }
    }

    /// The tiles the ability reaches.
    pub fn effect_target(&self) -> (r: EffectTarget)
        ensures
            r == self.spec_effect_target(),
    {
        match self {
            EnemyAbility::Attack { target, .. } => *target,
        }
    }
}

/// The enemies on the board, in the order they appeared.
#[derive(Debug)]
pub struct Enemies(pub Vec<u64>);

impl Enemies {
    /// Records a new enemy.
    pub fn on_enemy_added(&mut self, entity: u64)
        ensures
            final(self).0@ == old(self).0@.push(entity),
    {
        self.0.push(entity);
    }

    /// Forgets an enemy: its first occurrence, if any.
    pub fn on_enemy_removed(&mut self, entity: u64)
        ensures
            !old(self).0@.contains(entity) ==> final(self).0@ == old(self).0@,
            old(self).0@.contains(entity) ==> exists|i: int| {
                &&& 0 <= i < old(self).0@.len()
                &&& old(self).0@[i] == entity
                &&& forall|j: int| 0 <= j < i ==> old(self).0@[j] != entity
                &&& #[trigger] final(self).0@ == old(self).0@.remove(i)
            },
    {
        let mut i: usize = 0;
        while i < self.0.len()
            invariant
                i <= self.0@.len(),
                self.0@ == old(self).0@,
                forall|j: int| 0 <= j < i ==> self.0@[j] != entity,
            decreases self.0@.len() - i,
        {
            if self.0[i] == entity {
                self.0.remove(i);
                return;
            }
            i = i + 1;
        }
    }
}

/// Tallies of the current run.
#[derive(Clone, Copy, Debug, PartialEq, Eq, Structural, Default)]
pub struct EnemyStats {
    pub kill_count: usize,
}

/// What an enemy does in a turn.
#[derive(Clone, Copy, Debug, PartialEq, Eq, Structural)]
pub enum EnemyActionKind {
    /// Use the enemy's ability, usually an attack.
    Ability,
    Move,
}

/// An action queued for an enemy.
#[derive(Clone, Copy, Debug, PartialEq, Eq, Structural)]
pub struct EnemyAction {
    pub kind: EnemyActionKind,
    pub enemy_e: u64,
}

/// The enemy actions still to be played this turn, first in front.
#[derive(Debug)]
pub struct EnemyActionQueue(pub VecDeque<EnemyAction>);

impl Default for EnemyActionQueue {
    fn default() -> (r: Self)
        ensures
            r.0@.len() == 0,
    {
        EnemyActionQueue(VecDeque::new())
    }
}

/// The ability actions of the enemies, in order.
pub open spec fn ability_actions(enemies: Seq<u64>) -> Seq<EnemyAction> {
    enemies.map_values(|e: u64| EnemyAction { kind: EnemyActionKind::Ability, enemy_e: e })
}

/// The move actions of the enemies that can move, in order.
pub open spec fn move_actions(enemies: Seq<u64>, movers: Seq<u64>) -> Seq<EnemyAction> {
    enemies.filter(|e: u64| movers.contains(e)).map_values(
        |e: u64| EnemyAction { kind: EnemyActionKind::Move, enemy_e: e },
    )
}

/// Queues the enemies' turn: every enemy uses its ability first, then the enemies that can
/// move (those listed in `movers`) move, both in the enemies' order.
pub fn queue_actions(enemies: &Enemies, movers: &Vec<u64>, action_queue: &mut EnemyActionQueue)
    ensures
        final(action_queue).0@ == old(action_queue).0@ + ability_actions(enemies.0@) + move_actions(
            enemies.0@,
            movers@,
        ),
{
    let ghost start = action_queue.0@;
    let mut i: usize = 0;
    while i < enemies.0.len()
        invariant
            i <= enemies.0@.len(),
            action_queue.0@ == start + ability_actions(enemies.0@.take(i as int)),
        decreases enemies.0@.len() - i,
    {
        action_queue.0.push_back(EnemyAction { kind: EnemyActionKind::Ability, enemy_e: enemies.0[i] });
        proof {
            assert(enemies.0@.take(i + 1) =~= enemies.0@.take(i as int).push(enemies.0@[i as int]));
            assert(ability_actions(enemies.0@.take(i + 1)) =~= ability_actions(enemies.0@.take(i as int)).push(
                EnemyAction { kind: EnemyActionKind::Ability, enemy_e: enemies.0@[i as int] },
            ));
        }
        i = i + 1;
    }
    assert(enemies.0@.take(enemies.0@.len() as int) =~= enemies.0@);
    let ghost mid = action_queue.0@;
    let mut j: usize = 0;
    while j < enemies.0.len()
        invariant
            j <= enemies.0@.len(),
            action_queue.0@ == mid + move_actions(enemies.0@.take(j as int), movers@),
        decreases enemies.0@.len() - j,
    {
        let e = enemies.0[j];
        proof {
            reveal_with_fuel(Seq::filter, 1);
            assert(enemies.0@.take(j + 1).drop_last() =~= enemies.0@.take(j as int));
        }
        if crate::grid::contains_u64(movers, e) {
            action_queue.0.push_back(EnemyAction { kind: EnemyActionKind::Move, enemy_e: e });
        }
        proof {
            assert(action_queue.0@ =~= mid + move_actions(enemies.0@.take(j + 1), movers@));
        }
        j = j + 1;
    }
    assert(enemies.0@.take(enemies.0@.len() as int) =~= enemies.0@);
}

/// A chasing enemy: moves orthogonally and attacks every tile around it, raising the
/// temperature by 2.
pub fn chaser_enemy() -> (r: (Movement, TileDirection, EnemyAbility))
    ensures
        r.0.tile_movement_speed_ms == 300,
        r.0.tile_pause_ms == 100,
        r.1 == TileDirection::Orthogonal,
        r.2 == (EnemyAbility::Attack {
            target: EffectTarget { reach: EffectReach::Exact(1), direction: EffectDirection::Area },
            temp_offset: 2,
        }),
{
    (
        Movement::default(),
        TileDirection::Orthogonal,
        EnemyAbility::Attack {
            target: EffectTarget { reach: EffectReach::Exact(1), direction: EffectDirection::Area },
            temp_offset: 2,
        },
    )
}

/// What playing an enemy action comes to.
#[derive(Clone, Copy, Debug, PartialEq, Eq, Structural)]
pub enum EnemyOutcome {
    /// The action cannot be played; the queue goes on without waiting.
    Skip,
    /// The enemy used its ability, changing the temperature when it hit the player, and the
    /// queue waits `duration_ms`.
    Ability { hit: Option<TempChangeAction>, duration_ms: u64 },
    /// The enemy steps towards the player, and the queue waits `duration_ms`.
    Move { action: MoveAction, duration_ms: u64 },
}

/// The tile an entity is recorded on, as coordinates.
pub open spec fn recorded_tile(grid: &Grid, e: u64) -> Coords {
    Coords::spec_new(grid.entities()[e].0 as int, grid.entities()[e].1 as int)
}

/// Plays a queued enemy action. `ability`, `dir` and `movement` are the enemy's components,
/// `player_tile` the tile the player stands on.
///
/// An ability hits when its reach from the enemy's tile covers the player. A move takes the
/// first step of a shortest path towards a tile from which the ability would reach the
/// player. Without the enemy on the board, or without the components the action needs, or
/// without such a step, the action is skipped.
pub fn enemy_action_outcome(
    grid: &Grid,
    action: EnemyAction,
    ability: Option<EnemyAbility>,
    dir: Option<TileDirection>,
    movement: Option<Movement>,
    player_tile: Option<Coords>,
    rng: &mut StdRng,
) -> (r: EnemyOutcome)
    requires
        ability matches Some(a) ==> {
            &&& (action.kind is Ability && grid.entities().dom().contains(action.enemy_e))
                ==> offset_room(recorded_tile(grid, action.enemy_e), a.spec_effect_target().reach.far())
            &&& (action.kind is Move && player_tile is Some) ==> {
                &&& step_room(player_tile.unwrap())
                &&& offset_room(player_tile.unwrap(), a.spec_effect_target().reach.far())
            }
        },
    ensures
        (!grid.entities().dom().contains(action.enemy_e) || ability is None) ==> r is Skip,
        (grid.entities().dom().contains(action.enemy_e) && ability is Some) ==> {
            let tile = recorded_tile(grid, action.enemy_e);
            let a = ability.unwrap();
            let target = a.spec_effect_target();
            &&& action.kind is Ability ==> r == EnemyOutcome::Ability {
                hit: if exists|j: int| 0 <= j < target.spec_target_tiles().len() && {
                    let p = #[trigger] crate::grid::shifted(tile, target.spec_target_tiles()[j]);
                    grid.occupied(p) && grid.tiles()[p.key()].kind == TileObjectKind::Player
                } {
                    match a {
                        EnemyAbility::Attack { temp_offset, .. } => Some(TempChangeAction { change: temp_offset }),
                    }
                } else {
                    None
                },
                duration_ms: 500,
            }
            &&& (action.kind is Move && (dir is None || movement is None || player_tile is None)) ==> r is Skip
            &&& (action.kind is Move && dir is Some && movement is Some && player_tile is Some) ==> {
                let p = player_tile.unwrap();
                let goals = grid.spec_effect_tiles(p, Some(seq![tile]), target, None);
                &&& r is Skip <==> (goals.contains(tile) || forall|w: Seq<Coords>|
                    !#[trigger] grid.reaches(w, tile, p, dir.unwrap(), goals))
                &&& r is Skip || r is Move
                &&& r matches EnemyOutcome::Move { action: m, duration_ms } ==> {
                    &&& m.agent_e == action.enemy_e
                    &&& duration_ms == movement.unwrap().tile_movement_speed_ms
                    &&& exists|path: Seq<Coords>| #![trigger grid.reaches(seq![tile] + path, tile, p, dir.unwrap(), goals)] {
                        &&& path.len() >= 1
                        &&& path[0] == m.to
                        &&& grid.reaches(seq![tile] + path, tile, p, dir.unwrap(), goals)
                        &&& forall|w: Seq<Coords>| #[trigger] grid.reaches(w, tile, p, dir.unwrap(), goals)
                            ==> path.len() + 1 <= w.len()
                    }
                }
            }
        },
{
    proof {
        use_type_invariant(grid);
    }
    let enemy_tile = match grid.entity_to_coords(action.enemy_e) {
        Some(t) => t,
        None => return EnemyOutcome::Skip,
    };
    let enemy_ability = match ability {
        Some(a) => a,
        None => return EnemyOutcome::Skip,
    };
    match action.kind {
        EnemyActionKind::Ability => {
            let hit = match enemy_ability {
                EnemyAbility::Attack { target, temp_offset } => {
                    if grid.effect_tiles_contain_entity_kind(enemy_tile, target, TileObjectKind::Player) {
                        Some(TempChangeAction { change: temp_offset })
                    } else {
                        None
                    }
                },
            };
            EnemyOutcome::Ability { hit, duration_ms: enemy_ability.action_duration_ms() }
        },
        EnemyActionKind::Move => {
            let tile_dir = match dir {
                Some(d) => d,
                None => return EnemyOutcome::Skip,
            };
            let enemy_movement = match movement {
                Some(m) => m,
                None => return EnemyOutcome::Skip,
            };
            let target_tile = match player_tile {
                Some(t) => t,
                None => return EnemyOutcome::Skip,
            };
            proof {
                assert(grid.entities().dom().contains(action.enemy_e));
                assert(grid.in_bounds(enemy_tile));
            }
            let path = grid.path_to_reach_effect_target(
                enemy_tile,
                target_tile,
                tile_dir,
                enemy_ability.effect_target(),
                rng,
            );
            match path {
                Some(p) => {
                    if p.len() > 0 {
                        let to = p[0];
                        proof {
                            let ghost goals = grid.spec_effect_tiles(target_tile, Some(seq![enemy_tile]), enemy_ability.spec_effect_target(), None);
                            assert(grid.reaches(seq![enemy_tile] + p@, enemy_tile, target_tile, tile_dir, goals));
                        }
                        EnemyOutcome::Move {
                            action: MoveAction { agent_e: action.enemy_e, to },
                            duration_ms: enemy_movement.tile_movement_speed_ms,
                        }
                    } else {
                        proof {
                            let ghost goals = grid.spec_effect_tiles(target_tile, Some(seq![enemy_tile]), enemy_ability.spec_effect_target(), None);
                            assert(seq![enemy_tile] + p@ =~= seq![enemy_tile]);
                            assert(grid.reaches(seq![enemy_tile], enemy_tile, target_tile, tile_dir, goals));
                        }
                        EnemyOutcome::Skip
                    }
                },
                None => EnemyOutcome::Skip,
            }
        },
    }
}

} // verus!
