//! The game's colors. Theme colors are 8-bit sRGB triples packed as `0xRRGGBB`.
use vstd::prelude::*;

verus! {

pub const COL_SNOW: u32 = 0x85daeb;
pub const COL_CYAN: u32 = 0x5fc9e7;
pub const COL_BLUE_LIGHT: u32 = 0x5fa1e7;
pub const COL_BLUEISH_PURPLE: u32 = 0x5f6ee7;
pub const COL_BLUE: u32 = 0x4c60aa;
pub const COL_BLUE_DARK: u32 = 0x444774;
pub const COL_DARK: u32 = 0x32313b;
pub const COL_PURPLE_DARKER: u32 = 0x463c5e;
pub const COL_PURPLE_DARK: u32 = 0x5d4776;
pub const COL_PURPLE: u32 = 0x855395;
pub const COL_PURPLE_LIGHT: u32 = 0xab58a8;
pub const COL_PINK: u32 = 0xca60ae;
pub const COL_ORANGE: u32 = 0xf3a787;
pub const COL_YELLOW: u32 = 0xf5daa7;
pub const COL_GREEN_LIGHT: u32 = 0x8dd894;
pub const COL_GREEN: u32 = 0x5dc190;
pub const COL_GREEN_DARK: u32 = 0x4ab9a3;
pub const COL_TURQUOISE_DARK: u32 = 0x4593a5;
pub const COL_CYAN_NEON: u32 = 0x5efdf7;
pub const COL_PINK_NEON: u32 = 0xff5dcc;
pub const COL_YELLOW_NEON: u32 = 0xfdfe89;
pub const COL_LIGHT: u32 = 0xffffff;
pub const COL_RED_NEON: u32 = 0xc1115a;
pub const COL_RED: u32 = 0xe13a6a;
pub const COL_RED_LIGHT: u32 = 0xe46a87;

pub const COL_CARD: u32 = COL_LIGHT;
pub const COL_CARD_OUTLINE_ACTION_CARD: u32 = COL_PURPLE_DARKER;
pub const COL_CARD_OUTLINE_TILE_CARD: u32 = COL_CARD;
pub const COL_CARD_BORDER: u32 = COL_PURPLE_DARKER;
pub const COL_CARD_BORDER_FOCUS: u32 = COL_ORANGE;
pub const COL_CARD_BORDER_DISCARD: u32 = COL_RED;
pub const COL_CARD_TEMP_COST_BG: u32 = COL_PURPLE_DARKER;
pub const COL_CARD_CENTER_TILE: u32 = COL_CARD_BORDER;
pub const COL_CARD_INVALID_TILE: u32 = 0xacacc8;

pub const COL_TILE_VALID: u32 = COL_GREEN;
pub const COL_TILE_VALID_HOVER: u32 = COL_GREEN_DARK;

/// Colors of the Tailwind palette that the game uses.
#[derive(Clone, Copy, Debug, PartialEq, Eq, Structural)]
pub enum TailwindColor {
    Indigo400,
    Indigo800,
    Purple500,
    Purple900,
    Lime400,
    Green800,
    Rose300,
    Red400,
}

/// A color: a theme color as `0xRRGGBB`, or a Tailwind palette color.
#[derive(Clone, Copy, Debug, PartialEq, Eq, Structural)]
pub enum ThemeColor {
    Srgb(u32),
    Tailwind(TailwindColor),
}

} // verus!
