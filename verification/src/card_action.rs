//! Cards of the dice ruleset: actions that cost or restore pips.
use vstd::prelude::*;
use crate::coords::Coords;
use crate::effect::{EffectDirection, EffectReach, EffectTarget, TileInteractionPalette};
use crate::palette::{TailwindColor, ThemeColor};
use crate::action::MoveAction;
use crate::temp::TempChangeAction;

verus! {

/// `v as i8`: the byte read as a two's complement number.
pub open spec fn as_i8(v: u8) -> int {
    if v < 128 { v as int } else { v - 256 }
}

/// Computes `v as i8`.
pub fn to_i8(v: u8) -> (r: i8)
    ensures
        r == as_i8(v),
{
    if v < 128 {
        v as i8
    } else {
        let low: i8 = (v - 128) as i8;
        low - 127 - 1
    }
}

/// Which tiles a tile card may be played on.
#[derive(Clone, Copy, Debug, PartialEq, Eq, Structural)]
pub enum TileTarget {
    EmptyTiles,
    Dice,
}

/// What is shared by every card action: a title and the change of pips it brings.
pub trait TileActionCommon {
    /// The title shown on the card.
    spec fn spec_title(&self) -> Seq<char>;

    /// The change of pips, when its computation does not overflow.
    spec fn spec_pip_change(&self) -> Option<int>;

    /// The change of pips can be computed without overflow.
    spec fn pip_change_defined(&self) -> bool;

    fn title(&self) -> (r: &str)
        ensures
            r@ == self.spec_title(),
    ;

    fn pip_change(&self) -> (r: Option<i8>)
        requires
            self.pip_change_defined(),
        ensures
            r matches Some(v) ==> self.spec_pip_change() == Some(v as int),
            r is None <==> self.spec_pip_change() is None,
    ;
}

/// A card action played on a selected tile.
#[derive(Clone, Copy, Debug, PartialEq, Eq, Structural)]
pub enum TileCardAction {
    Move { reach: EffectReach, direction: EffectDirection, pip_cost: u8 },
    Attack { reach: EffectReach, direction: EffectDirection, attack: u8, pip_cost: u8, poison: bool },
    Heal { reach: EffectReach, direction: EffectDirection, heal: u8 },
}

/// A card action played as soon as the card is selected.
#[derive(Clone, Copy, Debug, PartialEq, Eq, Structural)]
pub enum CardAction {
    HealSelf(u8),
}

/// When a card's action is triggered: on selection, or on a selected tile.
#[derive(Clone, Copy, Debug, PartialEq, Eq, Structural)]
pub enum CardActionTrigger {
    CardSelection(CardAction),
    TileSelection(TileCardAction),
}

/// A condition on the pips of the die that plays a card: its pip count lies in `lo..=hi`.
#[derive(Clone, Copy, Debug, PartialEq, Eq, Structural)]
pub enum CardActionCondition {
    PipCount(u8, u8),
}

/// An event asking to play the card entity.
#[derive(Clone, Copy, Debug, PartialEq, Eq, Structural)]
pub struct PlayCard(pub u64);

/// An event asking to play a tile card on the selected tile.
#[derive(Clone, Copy, Debug, PartialEq, Eq, Structural)]
pub struct PlaySelectedTileCard {
    pub card_e: u64,
    pub selected_tile: Coords,
}

/// An action a played card of the dice ruleset asks for.
#[derive(Clone, Copy, Debug, PartialEq, Eq, Structural)]
pub enum DiceAction {
    TempChange(TempChangeAction),
    Move(MoveAction),
}

/// Plays an action card: healing raises the temperature by the heal.
pub fn play_card(trigger: &CardActionTrigger) -> (r: TempChangeAction)
    requires
        trigger is CardSelection,
    ensures
        *trigger matches CardActionTrigger::CardSelection(CardAction::HealSelf(heal)) ==> r.change == as_i8(heal),
{
    match trigger {
        CardActionTrigger::CardSelection(action) => match action {
            CardAction::HealSelf(heal) => TempChangeAction { change: to_i8(*heal) },
        },
        CardActionTrigger::TileSelection(_) => {
            assert(false);
            TempChangeAction { change: 0 }
        },
    }
}

/// Plays a tile card on the selected tile: a move sends the player there paying its pips; an
/// attack lowers the temperature by its attack and then by its cost; a heal raises it.
pub fn play_selected_tile_card(trigger: &CardActionTrigger, player: u64, selected_tile: Coords) -> (r: Vec<DiceAction>)
    requires
        trigger is TileSelection,
        *trigger matches CardActionTrigger::TileSelection(TileCardAction::Attack { attack, pip_cost, .. })
            ==> attack != 128 && pip_cost != 128,
    ensures
        *trigger matches CardActionTrigger::TileSelection(TileCardAction::Move { pip_cost, .. }) ==> r@ == seq![
            DiceAction::Move(MoveAction { agent_e: player, to: selected_tile, pip_cost }),
        ],
        *trigger matches CardActionTrigger::TileSelection(TileCardAction::Attack { attack, pip_cost, .. }) ==> r@ == seq![
            DiceAction::TempChange(TempChangeAction { change: (-as_i8(attack)) as i8 }),
            DiceAction::TempChange(TempChangeAction { change: (-as_i8(pip_cost)) as i8 }),
        ],
        *trigger matches CardActionTrigger::TileSelection(TileCardAction::Heal { heal, .. }) ==> r@ == seq![
            DiceAction::TempChange(TempChangeAction { change: as_i8(heal) as i8 }),
        ],
{
    let r = match trigger {
        CardActionTrigger::TileSelection(tile_card_action) => match tile_card_action {
            TileCardAction::Move { pip_cost, .. } => vec![
                DiceAction::Move(MoveAction { agent_e: player, to: selected_tile, pip_cost: *pip_cost }),
            ],
            TileCardAction::Attack { attack, pip_cost, .. } => {
                let attack_change: i8 = -to_i8(*attack);
                let cost_change: i8 = -to_i8(*pip_cost);
                vec![
                    DiceAction::TempChange(TempChangeAction { change: attack_change }),
                    DiceAction::TempChange(TempChangeAction { change: cost_change }),
                ]
            },
            TileCardAction::Heal { heal, .. } => vec![
                DiceAction::TempChange(TempChangeAction { change: to_i8(*heal) }),
            ],
        },
        CardActionTrigger::CardSelection(_) => {
            assert(false);
            Vec::new()
        },
    };
    proof {
        match *trigger {
            CardActionTrigger::TileSelection(TileCardAction::Move { pip_cost, .. }) => {
                assert(r@ =~= seq![DiceAction::Move(MoveAction { agent_e: player, to: selected_tile, pip_cost })]);
            },
            CardActionTrigger::TileSelection(TileCardAction::Attack { attack, pip_cost, .. }) => {
                assert(r@ =~= seq![
                    DiceAction::TempChange(TempChangeAction { change: (-as_i8(attack)) as i8 }),
                    DiceAction::TempChange(TempChangeAction { change: (-as_i8(pip_cost)) as i8 }),
                ]);
            },
            CardActionTrigger::TileSelection(TileCardAction::Heal { heal, .. }) => {
                assert(r@ =~= seq![DiceAction::TempChange(TempChangeAction { change: as_i8(heal) as i8 })]);
            },
            _ => {},
        }
    }
    r
}

impl TileActionCommon for TileCardAction {
    open spec fn spec_title(&self) -> Seq<char> {
        match self {
            TileCardAction::Move { .. } => "Move"@,
            TileCardAction::Attack { poison: true, .. } => "Poison"@,
            TileCardAction::Attack { .. } => "Attack"@,
            TileCardAction::Heal { .. } => "Heal"@,
        }
    }

    open spec fn spec_pip_change(&self) -> Option<int> {
        match self {
            TileCardAction::Move { pip_cost, .. } => Some(-as_i8(*pip_cost)),
            TileCardAction::Attack { pip_cost, .. } => Some(-as_i8(*pip_cost)),
            TileCardAction::Heal { heal, .. } => Some(as_i8(*heal)),
        }
    }

    open spec fn pip_change_defined(&self) -> bool {
        match self {
            TileCardAction::Move { pip_cost, .. } => *pip_cost != 128,
            TileCardAction::Attack { pip_cost, .. } => *pip_cost != 128,
            TileCardAction::Heal { .. } => true,
        }
    }

    fn title(&self) -> (r: &str) {
        match self {
            TileCardAction::Move { .. } => "Move",
            TileCardAction::Attack { poison: true, .. } => "Poison",
            TileCardAction::Attack { .. } => "Attack",
            TileCardAction::Heal { .. } => "Heal",
        }
    }

    fn pip_change(&self) -> (r: Option<i8>) {
        match self {
            TileCardAction::Move { pip_cost, .. } => Some(-to_i8(*pip_cost)),
            TileCardAction::Attack { pip_cost, .. } => Some(-to_i8(*pip_cost)),
            TileCardAction::Heal { heal, .. } => Some(to_i8(*heal)),
        }
    }
}

impl TileActionCommon for CardAction {
    open spec fn spec_title(&self) -> Seq<char> {
        match self {
            CardAction::HealSelf(_) => "Heal self"@,
        }
    }

    open spec fn spec_pip_change(&self) -> Option<int> {
        match self {
            CardAction::HealSelf(heal) => Some(as_i8(*heal)),
        }
    }

    open spec fn pip_change_defined(&self) -> bool {
        true
    }

    fn title(&self) -> (r: &str) {
        match self {
            CardAction::HealSelf(_) => "Heal self",
        }
    }

    fn pip_change(&self) -> (r: Option<i8>) {
        match self {
            CardAction::HealSelf(heal) => Some(to_i8(*heal)),
        }
    }
}

impl TileActionCommon for CardActionTrigger {
    open spec fn spec_title(&self) -> Seq<char> {
        match self {
            CardActionTrigger::CardSelection(action) => action.spec_title(),
            CardActionTrigger::TileSelection(action) => action.spec_title(),
        }
    }

    open spec fn spec_pip_change(&self) -> Option<int> {
        match self {
            CardActionTrigger::CardSelection(action) => action.spec_pip_change(),
            CardActionTrigger::TileSelection(action) => action.spec_pip_change(),
        }
    }

    open spec fn pip_change_defined(&self) -> bool {
        match self {
            CardActionTrigger::CardSelection(action) => action.pip_change_defined(),
            CardActionTrigger::TileSelection(action) => action.pip_change_defined(),
        }
    }

    fn title(&self) -> (r: &str) {
        match self {
            CardActionTrigger::CardSelection(action) => action.title(),
            CardActionTrigger::TileSelection(action) => action.title(),
        }
    }

    fn pip_change(&self) -> (r: Option<i8>) {
        match self {
            CardActionTrigger::CardSelection(action) => action.pip_change(),
            CardActionTrigger::TileSelection(action) => action.pip_change(),
        }
    }
}

impl TileCardAction {
    pub open spec fn effect_target(self) -> EffectTarget {
        match self {
            TileCardAction::Move { reach, direction, .. } => EffectTarget { reach, direction },
            TileCardAction::Attack { reach, direction, .. } => EffectTarget { reach, direction },
            TileCardAction::Heal { reach, direction, .. } => EffectTarget { reach, direction },
        }
    }

    pub open spec fn spec_tile_target(self) -> TileTarget {
        match self {
            TileCardAction::Move { .. } => TileTarget::EmptyTiles,
            _ => TileTarget::Dice,
        }
    }

    /// Moves go to empty tiles; attacks and heals act on dice.
    pub fn tile_target(&self) -> (r: TileTarget)
        ensures
            r == self.spec_tile_target(),
    {
        match self {
            TileCardAction::Move { .. } => TileTarget::EmptyTiles,
            TileCardAction::Attack { .. } | TileCardAction::Heal { .. } => TileTarget::Dice,
        }
    }

    /// The relative tiles the action may be played on: the tiles its reach covers, plus the
    /// center when it acts on dice (the player's own die).
    pub fn tiles(&self) -> (r: Vec<Coords>)
        ensures
            r@ == (if self.spec_tile_target() == TileTarget::Dice {
                self.effect_target().spec_target_tiles().push(Coords::spec_new(0, 0))
            } else {
                self.effect_target().spec_target_tiles()
            }),
    {
        let target = match self {
            TileCardAction::Move { reach, direction, .. } => EffectTarget { reach: *reach, direction: *direction },
            TileCardAction::Attack { reach, direction, .. } => EffectTarget { reach: *reach, direction: *direction },
            TileCardAction::Heal { reach, direction, .. } => EffectTarget { reach: *reach, direction: *direction },
        };
        let mut tiles = target.target_tiles();
        match self.tile_target() {
            TileTarget::Dice => tiles.push(Coords::zero()),
            TileTarget::EmptyTiles => {},
        }
        tiles
    }

    /// Highlight and hover colors of the tiles the action may be played on.
    pub fn tile_interaction_palette(&self) -> (r: TileInteractionPalette)
        ensures
            r == (match self {
                TileCardAction::Move { .. } => TileInteractionPalette {
                    highlight: ThemeColor::Tailwind(TailwindColor::Indigo400),
                    hover: ThemeColor::Tailwind(TailwindColor::Indigo800),
                },
                TileCardAction::Attack { poison: true, .. } => TileInteractionPalette {
                    highlight: ThemeColor::Tailwind(TailwindColor::Purple500),
                    hover: ThemeColor::Tailwind(TailwindColor::Purple900),
                },
                TileCardAction::Heal { .. } => TileInteractionPalette {
                    highlight: ThemeColor::Tailwind(TailwindColor::Lime400),
                    hover: ThemeColor::Tailwind(TailwindColor::Green800),
                },
                TileCardAction::Attack { .. } => TileInteractionPalette {
                    highlight: ThemeColor::Tailwind(TailwindColor::Rose300),
                    hover: ThemeColor::Tailwind(TailwindColor::Red400),
                },
            }),
    {
        match self {
            TileCardAction::Move { .. } => TileInteractionPalette::new(
                ThemeColor::Tailwind(TailwindColor::Indigo400),
                ThemeColor::Tailwind(TailwindColor::Indigo800),
            ),
            TileCardAction::Attack { poison: true, .. } => TileInteractionPalette::new(
                ThemeColor::Tailwind(TailwindColor::Purple500),
                ThemeColor::Tailwind(TailwindColor::Purple900),
            ),
            TileCardAction::Heal { .. } => TileInteractionPalette::new(
                ThemeColor::Tailwind(TailwindColor::Lime400),
                ThemeColor::Tailwind(TailwindColor::Green800),
            ),
            TileCardAction::Attack { .. } => TileInteractionPalette::new(
                ThemeColor::Tailwind(TailwindColor::Rose300),
                ThemeColor::Tailwind(TailwindColor::Red400),
            ),
        }
    }
}

} // verus!
