//! Setting up a level: the deck a run starts with.
use vstd::prelude::*;
use crate::card::Card;
use crate::effect::{CardEffect, CardEffectTrigger, EffectDirection, EffectReach, EffectTarget, TileCardEffect};

verus! {

/// A tile card with the given effect that cools the temperature by 1 when discarded.
pub open spec fn cooling_tile_card(effect: TileCardEffect) -> Card {
    Card {
        effect_trigger: CardEffectTrigger::TileSelection(effect),
        discard_trigger: Some(CardEffect::TempOffset(-1i8)),
    }
}

/// A card that changes the temperature by `offset` when selected.
pub open spec fn temp_card(offset: i8) -> Card {
    Card { effect_trigger: CardEffectTrigger::CardSelection(CardEffect::TempOffset(offset)), discard_trigger: None }
}

/// A move to a tile exactly `n` tiles away in the given direction, warming by 1.
pub open spec fn move_exact(n: u8, direction: EffectDirection) -> TileCardEffect {
    TileCardEffect::Move {
        target: EffectTarget { reach: EffectReach::Exact(n), direction },
        temp_offset: 1,
    }
}

/// An attack on tiles up to `n` tiles away in the given direction, warming by `temp_offset`.
pub open spec fn attack_range(n: u8, direction: EffectDirection, temp_offset: i8) -> TileCardEffect {
    TileCardEffect::Attack {
        target: EffectTarget { reach: EffectReach::Range(n), direction },
        temp_offset,
    }
}

/// The deck a run starts with: four moves, two close-range attacks, two cards that warm by
/// 1 and one that cools by 2.
pub open spec fn debug_deck() -> Seq<Card> {
    seq![
        cooling_tile_card(move_exact(1, EffectDirection::Orthogonal)),
        cooling_tile_card(move_exact(1, EffectDirection::Orthogonal)),
        cooling_tile_card(move_exact(1, EffectDirection::Diagonal)),
        cooling_tile_card(move_exact(2, EffectDirection::Diagonal)),
        cooling_tile_card(attack_range(2, EffectDirection::Orthogonal, 3)),
        cooling_tile_card(attack_range(1, EffectDirection::Area, 2)),
        temp_card(1i8),
        temp_card(1i8),
        temp_card(-2i8),
    ]
}

/// Builds the deck a run starts with.
pub fn starting_debug_deck() -> (r: Vec<Card>)
    ensures
        r@ == debug_deck(),
{
    let mut deck: Vec<Card> = Vec::new();
    deck.push(Card::from_tile_effect(TileCardEffect::Move {
        target: EffectTarget { reach: EffectReach::Exact(1), direction: EffectDirection::Orthogonal },
        temp_offset: 1,
    }).with_cool1_discard_effect());
    deck.push(Card::from_tile_effect(TileCardEffect::Move {
        target: EffectTarget { reach: EffectReach::Exact(1), direction: EffectDirection::Orthogonal },
        temp_offset: 1,
    }).with_cool1_discard_effect());
    deck.push(Card::from_tile_effect(TileCardEffect::Move {
        target: EffectTarget { reach: EffectReach::Exact(1), direction: EffectDirection::Diagonal },
        temp_offset: 1,
    }).with_cool1_discard_effect());
    deck.push(Card::from_tile_effect(TileCardEffect::Move {
        target: EffectTarget { reach: EffectReach::Exact(2), direction: EffectDirection::Diagonal },
        temp_offset: 1,
    }).with_cool1_discard_effect());
    deck.push(Card::from_tile_effect(TileCardEffect::Attack {
        target: EffectTarget { reach: EffectReach::Range(2), direction: EffectDirection::Orthogonal },
        temp_offset: 3,
    }).with_cool1_discard_effect());
    deck.push(Card::from_tile_effect(TileCardEffect::Attack {
        target: EffectTarget { reach: EffectReach::Range(1), direction: EffectDirection::Area },
        temp_offset: 2,
    }).with_cool1_discard_effect());
    deck.push(Card::from_card_effect(CardEffect::TempOffset(1)));
    deck.push(Card::from_card_effect(CardEffect::TempOffset(1)));
    deck.push(Card::from_card_effect(CardEffect::TempOffset(-2)));
    assert(deck@ =~= debug_deck());
    deck
}

/// How long one tile of a new board takes to grow in.
pub const TILE_TWEEN_DURATION_MS: u64 = 220;

/// How much later each next tile of a new board starts growing in.
pub const TILE_TWEEN_STAGGER_MS: u64 = 40;

/// When each part of a level appears, in milliseconds after the level starts spawning.
#[derive(Clone, Copy, Debug, PartialEq, Eq, Structural)]
pub struct LevelSpawnDelays {
    pub grid_ms: u64,
    pub ui_ms: u64,
    pub enemies_ms: u64,
    pub player_ms: u64,
    pub decks_ms: u64,
}

/// How long a board of `side` x `side` tiles takes to grow in.
pub open spec fn grid_tweening_ms(side: int) -> int {
    side * side * TILE_TWEEN_STAGGER_MS + TILE_TWEEN_DURATION_MS
}

/// The spawn schedule of a level: the board after a short pause; the interface halfway
/// through the board's growth; the enemies once the board has grown; then the player, then
/// the decks, a second apart.
pub fn level_spawn_delays() -> (r: LevelSpawnDelays)
    ensures
        r.grid_ms == 400,
        r.ui_ms == 400 + grid_tweening_ms(7) / 2,
        r.enemies_ms == 400 + grid_tweening_ms(7) + 200,
        r.player_ms == r.enemies_ms + 1_000,
        r.decks_ms == r.player_ms + 1_000,
{
    let initial_delay_ms: u64 = 400;
    let max_grid_size: u64 = 7;
    let grid_tweening_ms: u64 = max_grid_size * max_grid_size * TILE_TWEEN_STAGGER_MS + TILE_TWEEN_DURATION_MS;
    let grid_delay = initial_delay_ms;
    let ui_delay = initial_delay_ms + grid_tweening_ms / 2;
    let enemies_delay = grid_delay + grid_tweening_ms + 200;
    let player_delay = enemies_delay + 1_000;
    let decks_delay = player_delay + 1_000;
    LevelSpawnDelays {
        grid_ms: grid_delay,
        ui_ms: ui_delay,
        enemies_ms: enemies_delay,
        player_ms: player_delay,
        decks_ms: decks_delay,
    }
}

} // verus!
