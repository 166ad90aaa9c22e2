//! Game rules of a small tactical card game played on a tile grid.
use vstd::prelude::*;

pub mod coords;
pub mod effect;
pub mod tile;
pub mod maps;
pub mod random;
pub mod grid;
pub mod palette;
pub mod temp;
pub mod heat;
pub mod card_action;
pub mod die;
pub mod action;
pub mod card;
pub mod pile;
pub mod movement;
pub mod enemy;
pub mod play;
pub mod turn;
pub mod screen;
pub mod focus;
pub mod fade;
pub mod text;
pub mod level;
pub mod ui;
pub mod observer;
pub mod background;

verus! {

} // verus!
