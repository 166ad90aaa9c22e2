use feverdream::action::{kill_dice, move_action, pip_change_action, MoveAction as DiceMove, PipChangeAction, PipChangeKind};
use feverdream::card_action::{
    play_card as play_dice_card, play_selected_tile_card as play_dice_tile_card, to_i8, CardAction,
    CardActionTrigger, DiceAction, TileCardAction, TileTarget,
};
use feverdream::coords::Coords;
use feverdream::die::{Die, DieKind};
use feverdream::effect::{EffectDirection, EffectReach, EffectTarget};
use feverdream::enemy::{
    chaser_enemy, enemy_action_outcome, queue_actions, AnimationIndeces, Enemies, EnemyAbility, EnemyAction,
    EnemyActionKind, EnemyActionQueue, EnemyOutcome,
};
use feverdream::grid::Grid;
use feverdream::heat::Heat;
use feverdream::movement::{move_path, MoveAction, Movement};
use feverdream::palette::{TailwindColor, ThemeColor};
use feverdream::temp::{saturating_add_signed, Temp, TempChangeAction};
use feverdream::tile::{TileDirection, TileObject, TileObjectKind};
use rand::rngs::StdRng;
use rand::SeedableRng;

fn c(x: i16, y: i16) -> Coords {
    Coords::new(x, y)
}

fn update(current: u8, change: i8) -> (u8, bool) {
    let mut temp = Temp { current, max: 5 };
    let overflown = temp.update_current(change);
    (temp.current, overflown)
}

#[test]
fn temp_update_current() {
    assert_eq!(update(3, 1), (4, false));
    assert_eq!(update(3, 2), (5, false));
    assert_eq!(update(4, 2), (5, true));
    assert_eq!(update(3, -2), (1, false));
    assert_eq!(update(2, -2), (1, true));
    assert_eq!(update(2, -3), (1, true));
}

#[test]
fn temp_defaults_and_saturation() {
    let t = Temp::default();
    assert_eq!((t.current, t.max), (3, 5));
    assert_eq!(saturating_add_signed(250, 10), 255);
    assert_eq!(saturating_add_signed(3, -10), 0);
    assert_eq!(saturating_add_signed(3, -1), 2);
}

#[test]
fn heat_levels() {
    let h1 = Heat::default();
    assert_eq!(h1.0, 1);
    assert_eq!(h1.target_kill_count(), 5);
    assert_eq!(h1.grid_size(), (7, 7));
    assert_eq!(h1.payout(), 2);
    assert_eq!(Heat(3).grid_size(), (7, 5));
    assert_eq!(Heat(3).payout(), 5);
    assert_eq!(Heat(5).grid_size(), (5, 5));
    assert_eq!(Heat(5).payout(), 12);
    assert_eq!(Heat(9).payout(), 12);
    assert!(Heat(2).enemy_max() <= Heat(4).enemy_max());
    assert_eq!(Heat(1).temp_increase(), 2);
    assert_eq!(Heat(2).temp_increase(), 4);
    assert_eq!(Heat(3).temp_increase(), 7);
    assert_eq!(Heat(4).temp_increase(), 11);
    assert_eq!(Heat(0).temp_increase(), 3);
    assert_eq!(Heat(6).temp_increase(), 6);
    let _ = Heat(1).obstacle_max();
}

#[test]
fn target_tiles_of_lines_and_areas() {
    let orth = EffectTarget { reach: EffectReach::Exact(1), direction: EffectDirection::Orthogonal };
    assert_eq!(orth.target_tiles(), vec![c(0, -1), c(0, 1), c(-1, 0), c(1, 0)]);
    let diag = EffectTarget { reach: EffectReach::Range(2), direction: EffectDirection::Diagonal };
    assert_eq!(
        diag.target_tiles(),
        vec![c(-1, -1), c(-1, 1), c(1, -1), c(1, 1), c(-2, -2), c(-2, 2), c(2, -2), c(2, 2)]
    );
    let area = EffectTarget { reach: EffectReach::Range(1), direction: EffectDirection::Area };
    assert_eq!(
        area.target_tiles(),
        vec![c(-1, -1), c(0, -1), c(1, -1), c(-1, 0), c(1, 0), c(-1, 1), c(0, 1), c(1, 1)]
    );
    let ring = EffectTarget { reach: EffectReach::Exact(2), direction: EffectDirection::Area };
    let tiles = ring.target_tiles();
    assert_eq!(tiles.len(), 16);
    for t in &tiles {
        assert_eq!(t.x.abs().max(t.y.abs()), 2);
    }
    let zero = EffectTarget { reach: EffectReach::Exact(0), direction: EffectDirection::Area };
    assert_eq!(zero.target_tiles(), vec![c(0, 0)]);
}

#[test]
fn die_faces() {
    assert_eq!(DieKind::default(), DieKind::D6);
    assert_eq!(DieKind::D20.max_pips(), 20);
    assert!(DieKind::D4.show_pips());
    assert!(!DieKind::D8.show_pips());
    let d = Die { pip_count: 3, kind: DieKind::D6 };
    assert_eq!(d.pip_positions(), Some(vec![c(1, 1), c(0, 0), c(-1, -1)]));
    assert_eq!(Die { pip_count: 5, kind: DieKind::D12 }.pip_positions(), None);
    assert_eq!(Die { pip_count: 6, kind: DieKind::D6 }.pip_positions().unwrap().len(), 6);
}

#[test]
fn dice_actions() {
    let mut grid = Grid::new(4, 4);
    grid.place_entity(TileObject { entity: 1, kind: TileObjectKind::Player }, c(0, 0)).unwrap();
    let paid = DiceMove { agent_e: 1, to: c(1, 1), pip_cost: 2 };
    assert_eq!(
        move_action(&mut grid, &paid),
        Some(PipChangeAction { agent_e: 1, change: PipChangeKind::Offset(-2) })
    );
    assert_eq!(grid.entity_to_coords(1), Some(c(1, 1)));
    let free = DiceMove { agent_e: 1, to: c(2, 1), pip_cost: 0 };
    assert_eq!(move_action(&mut grid, &free), None);
    assert_eq!(grid.entity_to_coords(1), Some(c(2, 1)));
    let off_board = DiceMove { agent_e: 1, to: c(4, 1), pip_cost: 1 };
    assert_eq!(move_action(&mut grid, &off_board), None);
    assert_eq!(grid.entity_to_coords(1), Some(c(2, 1)));

    let mut rng = StdRng::seed_from_u64(0);
    let mut die = Die { pip_count: 5, kind: DieKind::D6 };
    pip_change_action(&mut die, PipChangeKind::Offset(3), &mut rng);
    assert_eq!(die.pip_count, 6);
    pip_change_action(&mut die, PipChangeKind::Offset(-10), &mut rng);
    assert_eq!(die.pip_count, 0);
    for _ in 0..20 {
        pip_change_action(&mut die, PipChangeKind::Reroll, &mut rng);
        assert!((1..=6).contains(&die.pip_count));
    }
    let dice = vec![
        (1, Die { pip_count: 0, kind: DieKind::D6 }),
        (2, Die { pip_count: 4, kind: DieKind::D6 }),
        (3, Die { pip_count: 0, kind: DieKind::D4 }),
    ];
    assert_eq!(kill_dice(&dice), vec![1, 3]);
}

#[test]
fn dice_cards() {
    assert_eq!(to_i8(200), -56);
    assert_eq!(to_i8(5), 5);
    assert_eq!(play_dice_card(&CardActionTrigger::CardSelection(CardAction::HealSelf(2))), TempChangeAction { change: 2 });
    let tile = c(1, 2);
    let mv = CardActionTrigger::TileSelection(TileCardAction::Move {
        reach: EffectReach::Exact(1),
        direction: EffectDirection::Orthogonal,
        pip_cost: 1,
    });
    assert_eq!(
        play_dice_tile_card(&mv, 9, tile),
        vec![DiceAction::Move(DiceMove { agent_e: 9, to: tile, pip_cost: 1 })]
    );
    let attack = TileCardAction::Attack {
        reach: EffectReach::Range(1),
        direction: EffectDirection::Orthogonal,
        attack: 3,
        pip_cost: 1,
        poison: false,
    };
    assert_eq!(
        play_dice_tile_card(&CardActionTrigger::TileSelection(attack), 9, tile),
        vec![
            DiceAction::TempChange(TempChangeAction { change: -3 }),
            DiceAction::TempChange(TempChangeAction { change: -1 }),
        ]
    );
    let heal = TileCardAction::Heal { reach: EffectReach::Exact(1), direction: EffectDirection::Diagonal, heal: 2 };
    assert_eq!(
        play_dice_tile_card(&CardActionTrigger::TileSelection(heal), 9, tile),
        vec![DiceAction::TempChange(TempChangeAction { change: 2 })]
    );
    assert_eq!(attack.tile_target(), TileTarget::Dice);
    assert_eq!(attack.tiles(), vec![c(0, -1), c(0, 1), c(-1, 0), c(1, 0), c(0, 0)]);
    assert_eq!(heal.tiles().len(), 5);
    let step = TileCardAction::Move { reach: EffectReach::Exact(1), direction: EffectDirection::Orthogonal, pip_cost: 1 };
    assert_eq!(step.tile_target(), TileTarget::EmptyTiles);
    assert_eq!(step.tiles().len(), 4);
    assert_eq!(step.tile_interaction_palette().highlight, ThemeColor::Tailwind(TailwindColor::Indigo400));
    assert_eq!(heal.tile_interaction_palette().hover, ThemeColor::Tailwind(TailwindColor::Green800));
}

#[test]
fn straight_moves() {
    let grid = Grid::new(5, 5);
    assert_eq!(move_path(&grid, c(0, 0), c(3, 0)), Some(vec![c(1, 0), c(2, 0), c(3, 0)]));
    assert_eq!(move_path(&grid, c(3, 3), c(1, 1)), Some(vec![c(2, 2), c(1, 1)]));
    assert_eq!(move_path(&grid, c(0, 0), c(1, 2)), None);
    assert_eq!(move_path(&grid, c(2, 2), c(2, 2)), None);
    assert_eq!(move_path(&grid, c(0, 0), c(5, 0)), None);
    let m = Movement::default();
    assert_eq!((m.tile_movement_speed_ms, m.tile_pause_ms), (300, 100));
}

#[test]
fn enemy_queue() {
    let mut enemies = Enemies(vec![]);
    enemies.on_enemy_added(4);
    enemies.on_enemy_added(7);
    enemies.on_enemy_added(9);
    enemies.on_enemy_removed(7);
    enemies.on_enemy_removed(100);
    assert_eq!(enemies.0, vec![4, 9]);
    let mut queue = EnemyActionQueue::default();
    queue_actions(&enemies, &vec![9], &mut queue);
    let actions: Vec<EnemyAction> = queue.0.iter().copied().collect();
    assert_eq!(
        actions,
        vec![
            EnemyAction { kind: EnemyActionKind::Ability, enemy_e: 4 },
            EnemyAction { kind: EnemyActionKind::Ability, enemy_e: 9 },
            EnemyAction { kind: EnemyActionKind::Move, enemy_e: 9 },
        ]
    );
    assert_eq!(AnimationIndeces { start: 2, end: 5 }.range(), 2..=5);
}

#[test]
fn enemy_turn_outcomes() {
    let mut grid = Grid::new(5, 5);
    grid.place_entity(TileObject { entity: 1, kind: TileObjectKind::Player }, c(2, 2)).unwrap();
    grid.place_entity(TileObject { entity: 2, kind: TileObjectKind::Enemy }, c(3, 3)).unwrap();
    grid.place_entity(TileObject { entity: 3, kind: TileObjectKind::Enemy }, c(0, 4)).unwrap();
    let (movement, dir, ability) = chaser_enemy();
    assert_eq!(ability.action_duration_ms(), 500);
    let mut rng = StdRng::seed_from_u64(0);
    let hit = enemy_action_outcome(
        &grid,
        EnemyAction { kind: EnemyActionKind::Ability, enemy_e: 2 },
        Some(ability),
        Some(dir),
        Some(movement),
        Some(c(2, 2)),
        &mut rng,
    );
    assert_eq!(hit, EnemyOutcome::Ability { hit: Some(TempChangeAction { change: 2 }), duration_ms: 500 });
    let miss = enemy_action_outcome(
        &grid,
        EnemyAction { kind: EnemyActionKind::Ability, enemy_e: 3 },
        Some(ability),
        Some(dir),
        Some(movement),
        Some(c(2, 2)),
        &mut rng,
    );
    assert_eq!(miss, EnemyOutcome::Ability { hit: None, duration_ms: 500 });
    let step = enemy_action_outcome(
        &grid,
        EnemyAction { kind: EnemyActionKind::Move, enemy_e: 3 },
        Some(ability),
        Some(dir),
        Some(movement),
        Some(c(2, 2)),
        &mut rng,
    );
    match step {
        EnemyOutcome::Move { action, duration_ms } => {
            assert_eq!(duration_ms, 300);
            assert_eq!(action.agent_e, 3);
            assert!(action.to == c(1, 4) || action.to == c(0, 3));
        },
        other => panic!("expected a move, got {:?}", other),
    }
    let gone = enemy_action_outcome(
        &grid,
        EnemyAction { kind: EnemyActionKind::Move, enemy_e: 42 },
        Some(ability),
        Some(dir),
        Some(movement),
        Some(c(2, 2)),
        &mut rng,
    );
    assert_eq!(gone, EnemyOutcome::Skip);
    let no_ability = enemy_action_outcome(
        &grid,
        EnemyAction { kind: EnemyActionKind::Ability, enemy_e: 2 },
        None,
        Some(dir),
        Some(movement),
        Some(c(2, 2)),
        &mut rng,
    );
    assert_eq!(no_ability, EnemyOutcome::Skip);
    let _ = EnemyAbility::Attack {
        target: EffectTarget { reach: EffectReach::Exact(1), direction: EffectDirection::Area },
        temp_offset: 2,
    }
    .effect_target();
    let _ = MoveAction { agent_e: 0, to: c(0, 0) };
    let _ = TileDirection::All;
}
