//! Playing cards: what a played card asks the game to do.
use vstd::prelude::*;
use crate::card::Card;
use crate::coords::Coords;
use crate::effect::{CardEffect, CardEffectTrigger, TileCardEffect, TileTarget};
use crate::grid::{Grid, offset_room, shifted};
use crate::movement::MoveAction;
use crate::temp::TempChangeAction;
use crate::tile::TileObjectKind;

verus! {

/// An event asking to attack whatever stands on a tile.
#[derive(Clone, Copy, Debug, PartialEq, Eq, Structural)]
pub struct AttackAction {
    pub tile: Coords,
}

/// An action a played card asks for.
#[derive(Clone, Copy, Debug, PartialEq, Eq, Structural)]
pub enum TriggeredAction {
    TempChange(TempChangeAction),
    Move(MoveAction),
    Attack(AttackAction),
}

/// Plays an action card: its temperature offset is applied.
pub fn play_card(card: &Card) -> (r: Vec<TriggeredAction>)
    requires
        card.effect_trigger is CardSelection,
    ensures
        card.effect_trigger matches CardEffectTrigger::CardSelection(CardEffect::TempOffset(offset))
            ==> r@ == seq![TriggeredAction::TempChange(TempChangeAction { change: offset })],
{
    let r = match &card.effect_trigger {
        CardEffectTrigger::CardSelection(action) => match action {
            CardEffect::TempOffset(offset) => vec![
                TriggeredAction::TempChange(TempChangeAction { change: *offset }),
            ],
        },
        CardEffectTrigger::TileSelection(_) => {
            assert(false);
            Vec::new()
        },
    };
    proof {
        if let CardEffectTrigger::CardSelection(CardEffect::TempOffset(offset)) = card.effect_trigger {
            assert(r@ =~= seq![TriggeredAction::TempChange(TempChangeAction { change: offset })]);
        }
    }
    r
}

/// Plays a tile card on the selected tile: a move sends the player there and then changes
/// the temperature; an attack changes the temperature and then attacks the tile.
pub fn play_selected_tile_card(card: &Card, player: u64, selected_tile: Coords) -> (r: Vec<
    TriggeredAction,
>)
    requires
        card.effect_trigger is TileSelection,
    ensures
        card.effect_trigger matches CardEffectTrigger::TileSelection(TileCardEffect::Move { temp_offset, .. })
            ==> r@ == seq![
            TriggeredAction::Move(MoveAction { agent_e: player, to: selected_tile }),
            TriggeredAction::TempChange(TempChangeAction { change: temp_offset }),
        ],
        card.effect_trigger matches CardEffectTrigger::TileSelection(TileCardEffect::Attack { temp_offset, .. })
            ==> r@ == seq![
            TriggeredAction::TempChange(TempChangeAction { change: temp_offset }),
            TriggeredAction::Attack(AttackAction { tile: selected_tile }),
        ],
{
    let r = match &card.effect_trigger {
        CardEffectTrigger::TileSelection(tile_card_action) => match tile_card_action {
            TileCardEffect::Move { temp_offset, .. } => vec![
                TriggeredAction::Move(MoveAction { agent_e: player, to: selected_tile }),
                TriggeredAction::TempChange(TempChangeAction { change: *temp_offset }),
            ],
            TileCardEffect::Attack { temp_offset, .. } => vec![
                TriggeredAction::TempChange(TempChangeAction { change: *temp_offset }),
                TriggeredAction::Attack(AttackAction { tile: selected_tile }),
            ],
        },
        CardEffectTrigger::CardSelection(_) => {
            assert(false);
            Vec::new()
        },
    };
    proof {
        match card.effect_trigger {
            CardEffectTrigger::TileSelection(TileCardEffect::Move { temp_offset, .. }) => {
                assert(r@ =~= seq![
                    TriggeredAction::Move(MoveAction { agent_e: player, to: selected_tile }),
                    TriggeredAction::TempChange(TempChangeAction { change: temp_offset }),
                ]);
            },
            CardEffectTrigger::TileSelection(TileCardEffect::Attack { temp_offset, .. }) => {
                assert(r@ =~= seq![
                    TriggeredAction::TempChange(TempChangeAction { change: temp_offset }),
                    TriggeredAction::Attack(AttackAction { tile: selected_tile }),
                ]);
            },
            _ => {},
        }
    }
    r
}

/// Whether a tile card may be played on `tile`: it must lie on the board, and an attack
/// needs a die (the player or an enemy) there.
pub open spec fn selectable(grid: &Grid, effect: TileCardEffect, tile: Coords) -> bool {
    grid.in_bounds(tile) && (effect.spec_tile_target() == TileTarget::Empty || (grid.occupied(tile)
        && (grid.tiles()[tile.key()].kind is Player || grid.tiles()[tile.key()].kind is Enemy)))
}

/// The tiles reached by `effect`'s tiles from `player_tile + t`, keeping those of the first `n`.
pub open spec fn selectable_scan(grid: &Grid, effect: TileCardEffect, player_tile: Coords, ts: Seq<Coords>, n: nat) -> Seq<Coords>
    decreases n,
{
    if n == 0 {
        Seq::empty()
    } else {
        let prev = selectable_scan(grid, effect, player_tile, ts, (n - 1) as nat);
        let tile = shifted(player_tile, ts[n - 1]);
        if selectable(grid, effect, tile) {
            prev.push(tile)
        } else {
            prev
        }
    }
}

/// The tiles a selected tile card may be played on, in the order of the effect's tiles.
pub fn selectable_tiles(grid: &Grid, effect: &TileCardEffect, player_tile: Coords) -> (r: Vec<Coords>)
    requires
        offset_room(player_tile, effect.spec_target().reach.far()),
    ensures
        r@ == selectable_scan(
            grid,
            *effect,
            player_tile,
            effect.spec_target().spec_target_tiles(),
            effect.spec_target().spec_target_tiles().len(),
        ),
        forall|t: Coords| #[trigger] r@.contains(t) ==> grid.in_bounds(t),
        effect is Attack ==> forall|t: Coords| #[trigger] r@.contains(t) ==> grid.occupied(t)
            && grid.tiles()[t.key()].kind != TileObjectKind::Wall,
        forall|j: int| 0 <= j < effect.spec_target().spec_target_tiles().len() ==> {
            let t = shifted(player_tile, #[trigger] effect.spec_target().spec_target_tiles()[j]);
            (grid.in_bounds(t) && (effect is Move || (grid.occupied(t) && grid.tiles()[t.key()].kind
                != TileObjectKind::Wall))) ==> r@.contains(t)
        },
{
    let ts = effect.tiles();
    proof {
        crate::effect::lemma_target_tiles_bounded(effect.spec_target());
    }
    let mut res: Vec<Coords> = Vec::new();
    let mut i: usize = 0;
    while i < ts.len()
        invariant
            ts@ == effect.spec_target().spec_target_tiles(),
            offset_room(player_tile, effect.spec_target().reach.far()),
            i <= ts@.len(),
            res@ == selectable_scan(grid, *effect, player_tile, ts@, i as nat),
            forall|j: int| 0 <= j < ts@.len() ==> {
                let t = #[trigger] ts@[j];
                -effect.spec_target().reach.far() <= t.x <= effect.spec_target().reach.far()
                    && -effect.spec_target().reach.far() <= t.y <= effect.spec_target().reach.far()
            },
        decreases ts@.len() - i,
    {
        let tile = player_tile.plus(ts[i]);
        let wanted = match effect.tile_target() {
            TileTarget::Empty => true,
            TileTarget::Enemy => grid.contains_agent(tile),
        };
        if wanted && grid.within_bounds(tile) {
            res.push(tile);
        }
        i = i + 1;
    }
    proof {
        lemma_selectable_scan_members(grid, *effect, player_tile, ts@, ts@.len());
        assert forall|j: int| 0 <= j < ts@.len() implies {
            let t = shifted(player_tile, #[trigger] ts@[j]);
            (grid.in_bounds(t) && (effect is Move || (grid.occupied(t) && grid.tiles()[t.key()].kind
                != TileObjectKind::Wall))) ==> res@.contains(t)
        } by {
            let t = shifted(player_tile, ts@[j]);
            if grid.in_bounds(t) && (effect is Move || (grid.occupied(t) && grid.tiles()[t.key()].kind
                != TileObjectKind::Wall)) {
                assert(t == shifted(player_tile, ts@[j]));
            }
        }
    }
    res
}

/// Which tiles a tile card may be played on, from `player_tile + ts[j]` for `j < n`: exactly
/// those on the board, and, for an attack, holding the player or an enemy (never a wall or
/// nothing); a move may go to any of them.
pub proof fn lemma_selectable_scan_members(grid: &Grid, effect: TileCardEffect, player_tile: Coords, ts: Seq<Coords>, n: nat)
    requires
        n <= ts.len(),
    ensures
        forall|t: Coords| #[trigger] selectable_scan(grid, effect, player_tile, ts, n).contains(t) <==> {
            &&& exists|k: int| 0 <= k < n && t == shifted(player_tile, #[trigger] ts[k])
            &&& grid.in_bounds(t)
            &&& effect is Move || (grid.occupied(t) && grid.tiles()[t.key()].kind != TileObjectKind::Wall)
        },
    decreases n,
{
    if n > 0 {
        lemma_selectable_scan_members(grid, effect, player_tile, ts, (n - 1) as nat);
        let prev = selectable_scan(grid, effect, player_tile, ts, (n - 1) as nat);
        let tile = shifted(player_tile, ts[n - 1]);
        assert forall|t: Coords| #[trigger] selectable_scan(grid, effect, player_tile, ts, n).contains(t) <==> {
            &&& exists|k: int| 0 <= k < n && t == shifted(player_tile, #[trigger] ts[k])
            &&& grid.in_bounds(t)
            &&& effect is Move || (grid.occupied(t) && grid.tiles()[t.key()].kind != TileObjectKind::Wall)
        } by {
            broadcast use vstd::seq_lib::group_seq_properties;
            let cur = selectable_scan(grid, effect, player_tile, ts, n);
            if selectable(grid, effect, tile) {
                assert(cur == prev.push(tile));
                assert(cur.contains(t) <==> prev.contains(t) || t == tile);
            } else {
                assert(cur == prev);
            }
            if exists|k: int| 0 <= k < n && t == shifted(player_tile, #[trigger] ts[k]) {
                let k = choose|k: int| 0 <= k < n && t == shifted(player_tile, #[trigger] ts[k]);
                if k < n - 1 {
                    assert(exists|k2: int| 0 <= k2 < n - 1 && t == shifted(player_tile, #[trigger] ts[k2]));
                }
            }
            if cur.contains(t) && t == tile {
                assert(t == shifted(player_tile, ts[n - 1]));
            }
            if prev.contains(t) {
                let k = choose|k: int| 0 <= k < n - 1 && t == shifted(player_tile, #[trigger] ts[k]);
                assert(t == shifted(player_tile, ts[k]));
            }
        }
    }
}

} // verus!
