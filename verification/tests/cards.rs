use feverdream::card::{card_face_tiles, card_index_from_slice, Card, CardFaceTile, CardIcon};
use feverdream::coords::Coords;
use feverdream::effect::{CardEffect, CardEffectTrigger, EffectDirection, EffectReach, EffectTarget, TileCardEffect};
use feverdream::grid::Grid;
use feverdream::level::{level_spawn_delays, starting_debug_deck};
use feverdream::movement::MoveAction;
use feverdream::observer::ensure_single_at_most;
use feverdream::palette::{COL_CARD_OUTLINE_ACTION_CARD, COL_CARD_OUTLINE_TILE_CARD};
use feverdream::pile::{discard_card, fill_hand, DiscardPile, DrawPile, HandSize, Piles};
use feverdream::play::{play_card, play_selected_tile_card, selectable_tiles, AttackAction, TriggeredAction};
use feverdream::temp::TempChangeAction;
use feverdream::tile::{TileObject, TileObjectKind};
use feverdream::turn::{end_turn_on_empty_hand, TurnOrder};
use rand::rngs::StdRng;
use rand::SeedableRng;

fn move_card(n: u8, direction: EffectDirection) -> Card {
    Card::from_tile_effect(TileCardEffect::Move {
        target: EffectTarget { reach: EffectReach::Exact(n), direction },
        temp_offset: 1,
    })
}

fn attack_card(n: u8, direction: EffectDirection, temp_offset: i8) -> Card {
    Card::from_tile_effect(TileCardEffect::Attack {
        target: EffectTarget { reach: EffectReach::Range(n), direction },
        temp_offset,
    })
}

fn temp_card(offset: i8) -> Card {
    Card::from_card_effect(CardEffect::TempOffset(offset))
}

#[test]
fn starting_deck_holds_nine_cards() {
    let deck = starting_debug_deck();
    assert_eq!(deck.len(), 9);
    assert_eq!(deck[0], move_card(1, EffectDirection::Orthogonal).with_cool1_discard_effect());
    assert_eq!(deck[1], move_card(1, EffectDirection::Orthogonal).with_cool1_discard_effect());
    assert_eq!(deck[2], move_card(1, EffectDirection::Diagonal).with_cool1_discard_effect());
    assert_eq!(deck[3], move_card(2, EffectDirection::Diagonal).with_cool1_discard_effect());
    assert_eq!(deck[4], attack_card(2, EffectDirection::Orthogonal, 3).with_cool1_discard_effect());
    assert_eq!(deck[5], attack_card(1, EffectDirection::Area, 2).with_cool1_discard_effect());
    assert_eq!(deck[6], temp_card(1));
    assert_eq!(deck[7], temp_card(1));
    assert_eq!(deck[8], temp_card(-2));
    assert_eq!(deck.iter().filter(|c| **c == temp_card(1)).count(), 2);
    assert_eq!(deck.iter().filter(|c| **c == temp_card(-2)).count(), 1);
    assert_eq!(deck[0].discard_trigger, Some(CardEffect::TempOffset(-1)));
    assert_eq!(deck[6].discard_trigger, None);
}

#[test]
fn spawn_schedule() {
    let d = level_spawn_delays();
    assert_eq!(d.grid_ms, 400);
    assert_eq!(d.ui_ms, 1490);
    assert_eq!(d.enemies_ms, 2780);
    assert_eq!(d.player_ms, 3780);
    assert_eq!(d.decks_ms, 4780);
}

#[test]
fn card_icons_and_outline() {
    let warm = temp_card(2);
    let cool = temp_card(-2).with_discard_effect(CardEffect::TempOffset(3));
    assert_eq!(warm.trigger_effect_icon(), CardIcon::CardTempUp);
    assert_eq!(warm.discard_effect_icon(), None);
    assert_eq!(cool.trigger_effect_icon(), CardIcon::CardTempDown);
    assert_eq!(cool.discard_effect_icon(), Some(CardIcon::CardTempUp));
    assert_eq!(temp_card(0).trigger_effect_icon(), CardIcon::CardTempDown);
    assert_eq!(warm.outline_color(), COL_CARD_OUTLINE_ACTION_CARD);
    let mv = move_card(1, EffectDirection::Orthogonal).with_cool1_discard_effect();
    assert_eq!(mv.trigger_effect_icon(), CardIcon::EffectMove);
    assert_eq!(mv.discard_effect_icon(), Some(CardIcon::CardTempDown));
    assert_eq!(mv.outline_color(), COL_CARD_OUTLINE_TILE_CARD);
    assert_eq!(attack_card(1, EffectDirection::Area, 2).trigger_effect_icon(), CardIcon::EffectAttack);
}

#[test]
fn card_face_of_an_orthogonal_step() {
    assert!(card_face_tiles(&temp_card(1)).is_none());
    let face = card_face_tiles(&move_card(1, EffectDirection::Orthogonal)).unwrap();
    assert_eq!(face.len(), 25);
    assert_eq!(face[24], (Coords::new(0, 0), CardFaceTile::Center));
    let highlighted: Vec<Coords> =
        face.iter().filter(|(_, look)| *look == CardFaceTile::Highlighted).map(|(c, _)| *c).collect();
    assert_eq!(highlighted.len(), 4);
    for c in [Coords::new(0, -1), Coords::new(0, 1), Coords::new(-1, 0), Coords::new(1, 0)] {
        assert!(highlighted.contains(&c));
    }
    assert_eq!(face.iter().filter(|(_, look)| *look == CardFaceTile::Invalid).count(), 20);
}

#[test]
fn card_index() {
    assert_eq!(card_index_from_slice(&[4, 8, 15, 8], 8), 1);
    assert_eq!(card_index_from_slice(&[4, 8, 15], 15), 2);
    assert_eq!(card_index_from_slice(&[4, 8, 15], 16), 0);
    assert_eq!(card_index_from_slice(&[], 1), 0);
}

#[test]
fn playing_cards() {
    assert_eq!(
        play_card(&temp_card(-2)),
        vec![TriggeredAction::TempChange(TempChangeAction { change: -2 })]
    );
    let tile = Coords::new(2, 3);
    assert_eq!(
        play_selected_tile_card(&move_card(1, EffectDirection::Diagonal), 7, tile),
        vec![
            TriggeredAction::Move(MoveAction { agent_e: 7, to: tile }),
            TriggeredAction::TempChange(TempChangeAction { change: 1 }),
        ]
    );
    assert_eq!(
        play_selected_tile_card(&attack_card(2, EffectDirection::Orthogonal, 3), 7, tile),
        vec![
            TriggeredAction::TempChange(TempChangeAction { change: 3 }),
            TriggeredAction::Attack(AttackAction { tile }),
        ]
    );
}

#[test]
fn selectable_tiles_of_moves_and_attacks() {
    let mut grid = Grid::new(3, 3);
    grid.place_entity(TileObject { entity: 1, kind: TileObjectKind::Player }, Coords::new(0, 0)).unwrap();
    grid.place_entity(TileObject { entity: 2, kind: TileObjectKind::Enemy }, Coords::new(1, 0)).unwrap();
    let step = TileCardEffect::Move {
        target: EffectTarget { reach: EffectReach::Exact(1), direction: EffectDirection::Orthogonal },
        temp_offset: 1,
    };
    let moves = selectable_tiles(&grid, &step, Coords::new(0, 0));
    assert_eq!(moves.len(), 2);
    assert!(moves.contains(&Coords::new(1, 0)));
    assert!(moves.contains(&Coords::new(0, 1)));
    let hit = TileCardEffect::Attack {
        target: EffectTarget { reach: EffectReach::Range(1), direction: EffectDirection::Area },
        temp_offset: 2,
    };
    assert_eq!(selectable_tiles(&grid, &hit, Coords::new(0, 0)), vec![Coords::new(1, 0)]);
}

#[test]
fn discarding_a_card() {
    let mut pile = DiscardPile::default();
    let card = temp_card(-2);
    let deselect = discard_card(&mut pile, card, &vec![3, 5, 3, 9], 3);
    assert_eq!(deselect, vec![5, 9]);
    assert_eq!(pile.cards(), &vec![card]);
    let taken = pile.take_all();
    assert_eq!(taken, vec![card]);
    assert!(pile.cards().is_empty());
}

#[test]
fn fill_hand_from_the_draw_pile() {
    let deck = starting_debug_deck();
    let mut draw = DrawPile(deck.clone());
    let mut discard = DiscardPile::default();
    let mut rng = StdRng::seed_from_u64(1);
    let hand = fill_hand(&mut draw, &mut discard, 0, &HandSize::default(), &mut rng);
    assert_eq!(hand, deck[..5].to_vec());
    assert_eq!(draw.0, deck[5..].to_vec());
    let more = fill_hand(&mut draw, &mut discard, 5, &HandSize::default(), &mut rng);
    assert!(more.is_empty());
    assert_eq!(draw.0.len(), 4);
}

#[test]
fn fill_hand_reshuffles_the_discard_pile() {
    let deck = starting_debug_deck();
    let mut draw = DrawPile(deck[..2].to_vec());
    let mut discard = DiscardPile::default();
    for card in &deck[2..] {
        discard_card(&mut discard, *card, &vec![], 0);
    }
    let mut rng = StdRng::seed_from_u64(3);
    let hand = fill_hand(&mut draw, &mut discard, 1, &HandSize::new(5).unwrap(), &mut rng);
    assert_eq!(hand.len(), 4);
    assert_eq!(hand[..2].to_vec(), deck[..2].to_vec());
    assert!(discard.cards().is_empty());
    assert_eq!(draw.0.len(), 5);
    let mut all: Vec<Card> = hand.iter().chain(draw.0.iter()).copied().collect();
    let mut expected = deck.clone();
    let key = |c: &Card| format!("{:?}", c);
    all.sort_by_key(key);
    expected.sort_by_key(key);
    assert_eq!(all, expected);
}

#[test]
fn fill_hand_with_too_few_cards() {
    let deck = starting_debug_deck();
    let mut draw = DrawPile(vec![deck[0]]);
    let mut discard = DiscardPile::default();
    discard_card(&mut discard, deck[1], &vec![], 0);
    let mut rng = StdRng::seed_from_u64(0);
    let hand = fill_hand(&mut draw, &mut discard, 0, &HandSize::new(5).unwrap(), &mut rng);
    assert_eq!(hand, vec![deck[0], deck[1]]);
    assert!(draw.0.is_empty());
    assert!(discard.cards().is_empty());
}

#[test]
fn hand_size_default() {
    assert_eq!(HandSize::default().as_usize(), 5);
    assert!(HandSize::new(0).is_none());
    assert_eq!(HandSize::new(3).unwrap().as_usize(), 3);
}

#[test]
fn turn_ends_on_empty_hand() {
    let mut piles = Piles { first_hand: true };
    assert!(!end_turn_on_empty_hand(&mut piles, Some(0)));
    assert!(!piles.first_hand);
    assert!(end_turn_on_empty_hand(&mut piles, Some(0)));
    assert!(!end_turn_on_empty_hand(&mut piles, Some(2)));
    assert!(!end_turn_on_empty_hand(&mut piles, None));
    assert_eq!(TurnOrder::default(), TurnOrder::Player);
}

#[test]
fn single_marker_holder() {
    assert_eq!(ensure_single_at_most(&vec![1, 2, 3, 2], 2), vec![1, 3]);
    assert_eq!(ensure_single_at_most(&vec![2], 2), Vec::<u64>::new());
    assert_eq!(ensure_single_at_most(&vec![], 2), Vec::<u64>::new());
}

#[test]
fn trigger_kinds() {
    let c = temp_card(1);
    assert!(matches!(c.effect_trigger, CardEffectTrigger::CardSelection(_)));
}
