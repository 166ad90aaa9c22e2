//! Cards: what they do when played or discarded, and how their faces look.
use vstd::prelude::*;
use crate::coords::Coords;
use crate::effect::{
    CardEffect, CardEffectTrigger, EffectDirection, EffectReach, EffectTarget, TileCardEffect,
};
use crate::palette::{COL_CARD_OUTLINE_ACTION_CARD, COL_CARD_OUTLINE_TILE_CARD};

verus! {

/// A card: the effect it triggers when played, and the effect of discarding it, if any.
#[derive(Clone, Copy, Debug, PartialEq, Eq, Structural)]
pub struct Card {
    pub effect_trigger: CardEffectTrigger,
    pub discard_trigger: Option<CardEffect>,
}

/// An event asking to recolor the border of a card.
#[derive(Clone, Copy, Debug, PartialEq, Eq, Structural)]
pub struct ColorCardBorder {
    pub entity: u64,
    pub color: u32,
}

/// An event: the pointer left a card.
#[derive(Clone, Copy, Debug, PartialEq, Eq, Structural)]
pub struct CardPointerOut(pub u64);

/// Marks the card the pointer rests on.
#[derive(Clone, Copy, Debug, PartialEq, Eq, Structural, Default)]
pub struct CardFocused;

/// Marks the tile card that waits for a tile to be selected.
#[derive(Clone, Copy, Debug, PartialEq, Eq, Structural, Default)]
pub struct SelectedTileTriggerCard;

/// The images a card face shows for its effects.
#[derive(Clone, Copy, Debug, PartialEq, Eq, Structural)]
pub enum CardIcon {
    CardTempUp,
    CardTempDown,
    EffectMove,
    EffectAttack,
}

/// How a tile of the small board on a tile card's face is drawn.
#[derive(Clone, Copy, Debug, PartialEq, Eq, Structural)]
pub enum CardFaceTile {
    /// The tile the card is played from.
    Center,
    /// A tile the effect reaches.
    Highlighted,
    /// A tile the effect does not reach.
    Invalid,
}

pub open spec fn spec_card_effect_icon(card_effect: CardEffect) -> CardIcon {
    match card_effect {
        CardEffect::TempOffset(offset) => if offset > 0 {
            CardIcon::CardTempUp
        } else {
            CardIcon::CardTempDown
        },
    }
}

impl Card {
    /// A card whose effect is played on selection.
    pub fn from_card_effect(card_effect: CardEffect) -> (r: Card)
        ensures
            r.effect_trigger == CardEffectTrigger::CardSelection(card_effect),
            r.discard_trigger is None,
    {
        Card { effect_trigger: CardEffectTrigger::CardSelection(card_effect), discard_trigger: None }
    }

    /// A card whose effect is played on a selected tile.
    pub fn from_tile_effect(tile_card_effect: TileCardEffect) -> (r: Card)
        ensures
            r.effect_trigger == CardEffectTrigger::TileSelection(tile_card_effect),
            r.discard_trigger is None,
    {
        Card {
            effect_trigger: CardEffectTrigger::TileSelection(tile_card_effect),
            discard_trigger: None,
        }
    }

    /// The same card, with an effect played when it is discarded.
    pub fn with_discard_effect(self, discard_effect: CardEffect) -> (r: Card)
        ensures
            r.effect_trigger == self.effect_trigger,
            r.discard_trigger == Some(discard_effect),
    {
        let mut card = self;
        card.discard_trigger = Some(discard_effect);
        card
    }

    /// The same card, cooling the temperature by 1 when discarded.
    pub fn with_cool1_discard_effect(self) -> (r: Card)
        ensures
            r.effect_trigger == self.effect_trigger,
            r.discard_trigger == Some(CardEffect::TempOffset(-1i8)),
    {
        self.with_discard_effect(CardEffect::TempOffset(-1))
    }

    /// The outline color: action cards and tile cards differ.
    pub fn outline_color(&self) -> (r: u32)
        ensures
            r == (if self.effect_trigger is CardSelection {
                COL_CARD_OUTLINE_ACTION_CARD
            } else {
                COL_CARD_OUTLINE_TILE_CARD
            }),
    {
        match self.effect_trigger {
            CardEffectTrigger::CardSelection(_) => COL_CARD_OUTLINE_ACTION_CARD,
            CardEffectTrigger::TileSelection(_) => COL_CARD_OUTLINE_TILE_CARD,
        }
    }

    /// The icon of the effect the card is played for.
    pub fn trigger_effect_icon(&self) -> (r: CardIcon)
        ensures
            r == (match self.effect_trigger {
                CardEffectTrigger::CardSelection(e) => spec_card_effect_icon(e),
                CardEffectTrigger::TileSelection(TileCardEffect::Move { .. }) => CardIcon::EffectMove,
                CardEffectTrigger::TileSelection(TileCardEffect::Attack { .. }) => CardIcon::EffectAttack,
            }),
    {
        match &self.effect_trigger {
            CardEffectTrigger::CardSelection(card_effect) => Self::card_effect_icon(*card_effect),
            CardEffectTrigger::TileSelection(tile_card_effect) => match tile_card_effect {
                TileCardEffect::Move { .. } => CardIcon::EffectMove,
                TileCardEffect::Attack { .. } => CardIcon::EffectAttack,
            },
        }
    }

    /// The icon of the discard effect, if the card has one.
    pub fn discard_effect_icon(&self) -> (r: Option<CardIcon>)
        ensures
            r == (match self.discard_trigger {
                Some(e) => Some(spec_card_effect_icon(e)),
                None => None,
            }),
    {
        match &self.discard_trigger {
            Some(effect) => Some(Self::card_effect_icon(*effect)),
            None => None,
        }
    }

    /// Warming effects show the "up" icon, the others the "down" icon.
    pub fn card_effect_icon(card_effect: CardEffect) -> (r: CardIcon)
        ensures
            r == spec_card_effect_icon(card_effect),
    {
        match card_effect {
            CardEffect::TempOffset(offset) => if offset > 0 {
                CardIcon::CardTempUp
            } else {
                CardIcon::CardTempDown
            },
        }
    }
}

/// The tiles drawn on a card face around its center: those within 2 tiles.
pub open spec fn face_area() -> EffectTarget {
    EffectTarget { reach: EffectReach::Range(2), direction: EffectDirection::Area }
}

/// The small board drawn on the face of a tile card: every tile within 2 of the center, then
/// the center itself, each with how it is drawn. Action cards have no board.
pub fn card_face_tiles(card: &Card) -> (r: Option<Vec<(Coords, CardFaceTile)>>)
    ensures
        card.effect_trigger is CardSelection ==> r is None,
        card.effect_trigger matches CardEffectTrigger::TileSelection(action) ==> {
            let tiles = face_area().spec_target_tiles().push(Coords::spec_new(0, 0));
            let effect_tiles = action.spec_target().spec_target_tiles();
            r matches Some(v) && v@.len() == tiles.len() && forall|i: int| 0 <= i < tiles.len() ==> {
                let (tile, look) = #[trigger] v@[i];
                &&& tile == tiles[i]
                &&& look == (if tile.is_zero() {
                    CardFaceTile::Center
                } else if effect_tiles.contains(tile) {
                    CardFaceTile::Highlighted
                } else {
                    CardFaceTile::Invalid
                })
            }
        },
{
    match &card.effect_trigger {
        CardEffectTrigger::CardSelection(_) => None,
        CardEffectTrigger::TileSelection(action) => {
            let effect_tiles = action.tiles();
            let mut all_tiles_within_range = EffectTarget {
                reach: EffectReach::Range(2),
                direction: EffectDirection::Area,
            }.target_tiles();
            all_tiles_within_range.push(Coords::zero());
            let mut res: Vec<(Coords, CardFaceTile)> = Vec::new();
            let mut i: usize = 0;
            while i < all_tiles_within_range.len()
                invariant
                    i <= all_tiles_within_range@.len(),
                    all_tiles_within_range@ == face_area().spec_target_tiles().push(Coords::spec_new(0, 0)),
                    effect_tiles@ == action.spec_target().spec_target_tiles(),
                    res@.len() == i,
                    forall|j: int| 0 <= j < i ==> {
                        let (tile, look) = #[trigger] res@[j];
                        &&& tile == all_tiles_within_range@[j]
                        &&& look == (if tile.is_zero() {
                            CardFaceTile::Center
                        } else if effect_tiles@.contains(tile) {
                            CardFaceTile::Highlighted
                        } else {
                            CardFaceTile::Invalid
                        })
                    },
                decreases all_tiles_within_range@.len() - i,
            {
                let tile = all_tiles_within_range[i];
                let look = if tile.x == 0 && tile.y == 0 {
                    CardFaceTile::Center
                } else if crate::grid::contains_coords(&effect_tiles, &tile) {
                    CardFaceTile::Highlighted
                } else {
                    CardFaceTile::Invalid
                };
                res.push((tile, look));
                i = i + 1;
            }
            Some(res)
        },
    }
}

/// The index of `entity` in `entities`, or 0 when it is not there.
pub fn card_index_from_slice(entities: &[u64], entity: u64) -> (r: usize)
    ensures
        entities@.contains(entity) ==> r < entities@.len() && entities@[r as int] == entity
            && forall|j: int| 0 <= j < r ==> entities@[j] != entity,
        !entities@.contains(entity) ==> r == 0,
{
    let mut i: usize = 0;
    while i < entities.len()
        invariant
            i <= entities@.len(),
            forall|j: int| 0 <= j < i ==> entities@[j] != entity,
        decreases entities@.len() - i,
    {
        if entities[i] == entity {
            return i;
        }
        i = i + 1;
    }
    0
}

} // verus!
