//! The heat level: how hard a level is, and what it pays.
use vstd::prelude::*;

verus! {

/// The heat level chosen for the next level.
#[derive(Clone, Copy, Debug, PartialEq, Eq, Structural)]
pub struct Heat(pub u8);

impl Default for Heat {
    fn default() -> (r: Self)
        ensures
            r.0 == 1,
    {
        Heat(1)
    }
}

pub open spec fn spec_payout(h: u8) -> int {
    if h <= 1 {
        2
    } else if h == 2 {
        3
    } else if h == 3 {
        5
    } else if h == 4 {
        8
    } else {
        12
    }
}

/// The temperature increase per round at heat `h`.
pub open spec fn spec_temp_increase(h: u8) -> u8 {
    if h == 1 {
        2
    } else if h == 2 {
        4
    } else if h == 3 {
        7
    } else if h == 4 {
        11
    } else if h < 3 {
        3
    } else {
        h
    }
}

pub open spec fn spec_grid_size(h: u8) -> (u16, u16) {
    if h <= 2 {
        (7, 7)
    } else if h <= 4 {
        (7, 5)
    } else {
        (5, 5)
    }
}

impl Heat {
    /// Enemies to defeat to clear the level: 3, plus 2 per heat.
    pub fn target_kill_count(&self) -> (r: usize)
        ensures
            r == 3 + 2 * self.0,
    {
        let base: usize = 3;
        let increase: usize = 2;
        base + self.0 as usize * increase
    }

    /// Enemies on the board at most: 4, plus one per two heat.
    pub fn enemy_max(&self) -> (r: usize)
        ensures
            r == 4 + self.0 / 2,
    {
        let base: usize = 4;
        base + self.0 as usize / 2
    }

    /// The board size for this heat.
    pub fn grid_size(&self) -> (r: (u16, u16))
        ensures
            r == spec_grid_size(self.0),
            self.0 <= 2 ==> r == (7u16, 7u16),
            3 <= self.0 <= 4 ==> r == (7u16, 5u16),
            self.0 >= 5 ==> r == (5u16, 5u16),
    {
        if self.0 <= 2 {
            (7, 7)
        } else if self.0 <= 4 {
            (7, 5)
        } else {
            (5, 5)
        }
    }

    /// Obstacles on the board at most: 3, plus 3 per heat.
    pub fn obstacle_max(&self) -> (r: usize)
        ensures
            r == 3 + 3 * self.0,
    {
        let base: usize = 3;
        let increase: usize = 3;
        base + self.0 as usize * increase
    }

    /// The temperature increase per round: 2, 4, 7 and 11 at heat 1 to 4; at any other heat,
    /// the heat, but at least 3.
    pub fn temp_increase(&self) -> (r: u8)
        ensures
            r == spec_temp_increase(self.0),
    {
        match self.0 {
            1 => 2,
            2 => 4,
            3 => 7,
            4 => 11,
            h => if h < 3 { 3 } else { h },
        }
    }

    /// The reward for clearing a level at this heat.
    pub fn payout(&self) -> (r: usize)
        ensures
            r == spec_payout(self.0),
            self.0 <= 1 ==> r == 2,
            self.0 == 2 ==> r == 3,
            self.0 == 3 ==> r == 5,
            self.0 == 4 ==> r == 8,
            self.0 >= 5 ==> r == 12,
    {
        if self.0 <= 1 {
            2
        } else if self.0 == 2 {
            3
        } else if self.0 == 3 {
            5
        } else if self.0 == 4 {
            8
        } else {
            12
        }
    }
}

/// Raising the heat never lowers the payout or the number of enemies to defeat, never
/// enlarges the board, and, from heat 1 to 4, never lowers the temperature increase.
pub proof fn lemma_heat_monotone(low: Heat, high: Heat)
    requires
        low.0 <= high.0,
    ensures
        spec_payout(low.0) <= spec_payout(high.0),
        1 <= low.0 && high.0 <= 4 ==> spec_temp_increase(low.0) <= spec_temp_increase(high.0),
        3 + 2 * low.0 <= 3 + 2 * high.0,
        4 + low.0 / 2 <= 4 + high.0 / 2,
        spec_grid_size(high.0).0 <= spec_grid_size(low.0).0,
        spec_grid_size(high.0).1 <= spec_grid_size(low.0).1,
{
}

/// The board sizes by heat: 7 x 7 up to heat 2, 7 x 5 at heat 3 and 4, 5 x 5 from heat 5
/// on; so the board shrinks from 7 x 7 to 7 x 5 as heat 2 becomes 3, and again to 5 x 5 as
/// heat 4 becomes 5, and stays the same between.
pub proof fn lemma_grid_size_table(h: u8)
    ensures
        h <= 2 ==> spec_grid_size(h) == (7u16, 7u16),
        3 <= h <= 4 ==> spec_grid_size(h) == (7u16, 5u16),
        h >= 5 ==> spec_grid_size(h) == (5u16, 5u16),
        h < 255 && h != 2 && h != 4 ==> spec_grid_size(h) == spec_grid_size((h + 1) as u8),
        spec_grid_size(2) != spec_grid_size(3) && spec_grid_size(4) != spec_grid_size(5),
{
}

/// The payout by heat: 2, 3, 5, 8 at heat 1 to 4, and 12 from heat 5 on; it grows with
/// every step of heat from 1 to 5, each step adding more than the one before.
pub proof fn lemma_payout_table(h: u8)
    ensures
        h <= 1 ==> spec_payout(h) == 2,
        h == 2 ==> spec_payout(h) == 3,
        h == 3 ==> spec_payout(h) == 5,
        h == 4 ==> spec_payout(h) == 8,
        h >= 5 ==> spec_payout(h) == 12,
        1 <= h <= 4 ==> spec_payout(h) < spec_payout((h + 1) as u8),
        2 <= h <= 4 ==> spec_payout((h + 1) as u8) - spec_payout(h) > spec_payout(h) - spec_payout((h - 1) as u8),
{
}

} // verus!
