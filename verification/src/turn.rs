//! Turn order: the player's turn and the enemies' turn.
use vstd::prelude::*;
use crate::pile::Piles;

verus! {

/// Whose turn it is.
#[derive(Clone, Copy, Debug, PartialEq, Eq, Structural)]
pub enum TurnOrder {
    Player,
    Ai,
}

impl Default for TurnOrder {
    fn default() -> (r: Self)
        ensures
            r == TurnOrder::Player,
    {
        TurnOrder::Player
    }
}

/// Decides, when the hand changed to `hand_len` cards, whether the player's turn ends: it does
/// once the hand is empty, except for the change that deals the first hand, which only clears
/// `first_hand`.
pub fn end_turn_on_empty_hand(piles: &mut Piles, hand_len: Option<usize>) -> (end_turn: bool)
    ensures
        old(piles).first_hand ==> !end_turn && !final(piles).first_hand,
        !old(piles).first_hand ==> *final(piles) == *old(piles) && end_turn == (hand_len == Some(0usize)),
{
    if piles.first_hand {
        piles.first_hand = false;
        return false;
    }
    match hand_len {
        Some(len) => len == 0,
        None => false,
    }
}

} // verus!
