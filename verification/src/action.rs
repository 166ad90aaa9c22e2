//! Actions of the dice ruleset: moving dice and changing their pips.
use vstd::prelude::*;
use std::collections::VecDeque;
use crate::coords::Coords;
use crate::card_action::{as_i8, to_i8};
use crate::die::Die;
use crate::grid::Grid;
use crate::random::random_in_range;
use crate::temp::{saturated_sum, saturating_add_signed};
use rand::rngs::StdRng;

verus! {

/// A queue of actions still to be played.
pub struct ActionQueue {
    pub actions: VecDeque<()>,
}

/// An event asking to move an agent to a tile, paying pips.
#[derive(Clone, Copy, Debug, PartialEq, Eq, Structural)]
pub struct MoveAction {
    pub agent_e: u64,
    pub to: Coords,
    pub pip_cost: u8,
}

/// How a die's pips change: by an offset, or by a reroll.
#[derive(Clone, Copy, Debug, PartialEq, Eq, Structural)]
pub enum PipChangeKind {
    Offset(i8),
    Reroll,
}

/// An event asking to change the pips of an agent's die.
#[derive(Clone, Copy, Debug, PartialEq, Eq, Structural)]
pub struct PipChangeAction {
    pub agent_e: u64,
    pub change: PipChangeKind,
}

/// Moves the agent when the tile is on the board and free; a paid move then asks for the cost
/// to be taken off the agent's pips. Nothing happens, and nothing is asked, otherwise.
pub fn move_action(grid: &mut Grid, action: &MoveAction) -> (r: Option<PipChangeAction>)
    requires
        old(grid).move_defined(action.agent_e, action.to),
        action.pip_cost != 128,
    ensures
        final(grid).width() == old(grid).width(),
        final(grid).height() == old(grid).height(),
        old(grid).move_result(action.agent_e, action.to) is Err ==> {
            &&& r is None
            &&& final(grid).tiles() == old(grid).tiles()
            &&& final(grid).entities() == old(grid).entities()
        },
        old(grid).move_result(action.agent_e, action.to) is Ok ==> {
            let prev = old(grid).entities()[action.agent_e];
            let moved = old(grid).tiles()[prev];
            &&& final(grid).tiles() == old(grid).tiles().remove(prev).insert(action.to.key(), moved)
            &&& final(grid).entities() == old(grid).entities().insert(moved.entity, action.to.key())
            &&& r == (if action.pip_cost == 0 {
                None
            } else {
                Some(PipChangeAction {
                    agent_e: action.agent_e,
                    change: PipChangeKind::Offset((-as_i8(action.pip_cost)) as i8),
                })
            })
        },
{
    if !grid.within_bounds(action.to) {
        return None;
    }
    match grid.move_entity(action.agent_e, action.to) {
        Ok(()) => {},
        Err(_) => return None,
    }
    if action.pip_cost != 0 {
        Some(PipChangeAction {
            agent_e: action.agent_e,
            change: PipChangeKind::Offset(-to_i8(action.pip_cost)),
        })
    } else {
        None
    }
}

/// Applies a pip change to a die: an offset saturates and never exceeds the die's faces, a
/// reroll lands on a random face.
pub fn pip_change_action(die: &mut Die, change: PipChangeKind, rng: &mut StdRng)
    ensures
        final(die).kind == old(die).kind,
        change matches PipChangeKind::Offset(offset) ==> final(die).pip_count == (if saturated_sum(
            old(die).pip_count,
            offset,
        ) < old(die).kind.spec_max_pips() {
            saturated_sum(old(die).pip_count, offset)
        } else {
            old(die).kind.spec_max_pips() as int
        }),
        change is Reroll ==> 1 <= final(die).pip_count <= old(die).kind.spec_max_pips(),
{
    die.pip_count = match change {
        PipChangeKind::Offset(offset) => {
            let v = saturating_add_signed(die.pip_count, offset);
            let max = die.kind.max_pips();
            if v < max { v } else { max }
        },
        PipChangeKind::Reroll => random_in_range(rng, 1, die.kind.max_pips()),
    };
}

/// The entities of the dice that ran out of pips, in order.
pub fn kill_dice(dice: &Vec<(u64, Die)>) -> (r: Vec<u64>)
    ensures
        r@ == dice@.filter(|d: (u64, Die)| d.1.pip_count == 0).map_values(|d: (u64, Die)| d.0),
{
    let mut res: Vec<u64> = Vec::new();
    let mut i: usize = 0;
    while i < dice.len()
        invariant
            i <= dice@.len(),
            res@ == dice@.take(i as int).filter(|d: (u64, Die)| d.1.pip_count == 0).map_values(
                |d: (u64, Die)| d.0,
            ),
        decreases dice@.len() - i,
    {
        let ghost pred = |d: (u64, Die)| d.1.pip_count == 0;
        proof {
            reveal_with_fuel(Seq::filter, 1);
            assert(dice@.take(i + 1).drop_last() =~= dice@.take(i as int));
        }
        if dice[i].1.pip_count == 0 {
            res.push(dice[i].0);
        }
        proof {
            assert(res@ =~= dice@.take(i + 1).filter(pred).map_values(|d: (u64, Die)| d.0));
        }
        i = i + 1;
    }
    assert(dice@.take(dice@.len() as int) =~= dice@);
    res
}

} // verus!
