//! Dice: the agents of the dice ruleset, whose pips are their health.
use vstd::prelude::*;
use crate::coords::Coords;

verus! {

/// The kind of a die, by its number of faces.
#[derive(Clone, Copy, Debug, PartialEq, Eq, Structural)]
pub enum DieKind {
    D2,
    D4,
    D6,
    D8,
    D12,
    D20,
}

impl Default for DieKind {
    fn default() -> (r: Self)
        ensures
            r == DieKind::D6,
    {
        DieKind::D6
    }
}

impl DieKind {
    pub open spec fn spec_max_pips(self) -> u8 {
        match self {
            DieKind::D2 => 2,
            DieKind::D4 => 4,
            DieKind::D6 => 6,
            DieKind::D8 => 8,
            DieKind::D12 => 12,
            DieKind::D20 => 20,
        }
    }

    pub open spec fn spec_show_pips(self) -> bool {
        self is D2 || self is D4 || self is D6
    }

    /// The highest pip count: the number of faces.
    pub fn max_pips(&self) -> (r: u8)
        ensures
            r == self.spec_max_pips(),
    {
        match self {
            DieKind::D2 => 2,
            DieKind::D4 => 4,
            DieKind::D6 => 6,
            DieKind::D8 => 8,
            DieKind::D12 => 12,
            DieKind::D20 => 20,
        }
    }

    /// Whether the face is drawn with pips (up to six faces) rather than a number.
    pub fn show_pips(&self) -> (r: bool)
        ensures
            r == self.spec_show_pips(),
    {
        match self {
            DieKind::D2 | DieKind::D4 | DieKind::D6 => true,
            _ => false,
        }
    }
}

/// A die on the board: its kind and its current pip count.
#[derive(Clone, Copy, Debug, PartialEq, Eq, Structural)]
pub struct Die {
    pub pip_count: u8,
    pub kind: DieKind,
}

/// The pip layout of a face showing `n` pips, as offsets from the face's center.
pub open spec fn pip_layout(n: u8) -> Seq<Coords> {
    if n == 0 {
        Seq::empty()
    } else if n == 1 {
        seq![Coords::spec_new(0, 0)]
    } else if n == 2 {
        seq![Coords::spec_new(1, 1), Coords::spec_new(-1, -1)]
    } else if n == 3 {
        seq![Coords::spec_new(1, 1), Coords::spec_new(0, 0), Coords::spec_new(-1, -1)]
    } else if n == 4 {
        seq![Coords::spec_new(1, 1), Coords::spec_new(-1, -1), Coords::spec_new(1, -1), Coords::spec_new(-1, 1)]
    } else if n == 5 {
        seq![
            Coords::spec_new(1, 1),
            Coords::spec_new(-1, -1),
            Coords::spec_new(1, -1),
            Coords::spec_new(-1, 1),
            Coords::spec_new(0, 0),
        ]
    } else {
        seq![
            Coords::spec_new(1, 1),
            Coords::spec_new(1, 0),
            Coords::spec_new(1, -1),
            Coords::spec_new(-1, -1),
            Coords::spec_new(-1, 0),
            Coords::spec_new(-1, 1),
        ]
    }
}

impl Die {
    /// A face with pips can only be drawn for up to six pips.
    pub open spec fn face_drawable(&self) -> bool {
        self.kind.spec_show_pips() ==> self.pip_count <= 6
    }

    /// Where the pips of the face go, as offsets in `-1..=1` from its center (scaled when drawn);
    /// `None` for dice whose face shows a number.
    pub fn pip_positions(&self) -> (r: Option<Vec<Coords>>)
        requires
            self.face_drawable(),
        ensures
            self.kind.spec_show_pips() ==> (r matches Some(v) && v@ == pip_layout(self.pip_count)),
            !self.kind.spec_show_pips() ==> r is None,
            r matches Some(v) ==> v@.len() == self.pip_count,
    {
        if self.kind.show_pips() {
            let v = match self.pip_count {
                0 => Vec::new(),
                1 => vec![Coords::new(0, 0)],
                2 => vec![Coords::new(1, 1), Coords::new(-1, -1)],
                3 => vec![Coords::new(1, 1), Coords::new(0, 0), Coords::new(-1, -1)],
                4 => vec![Coords::new(1, 1), Coords::new(-1, -1), Coords::new(1, -1), Coords::new(-1, 1)],
                5 => vec![
                    Coords::new(1, 1),
                    Coords::new(-1, -1),
                    Coords::new(1, -1),
                    Coords::new(-1, 1),
                    Coords::new(0, 0),
                ],
                _ => vec![
                    Coords::new(1, 1),
                    Coords::new(1, 0),
                    Coords::new(1, -1),
                    Coords::new(-1, -1),
                    Coords::new(-1, 0),
                    Coords::new(-1, 1),
                ],
            };
            assert(v@ =~= pip_layout(self.pip_count));
            Some(v)
        } else {
            None
        }
    }
}

} // verus!
