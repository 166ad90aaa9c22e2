//! The backdrop: a sun circled by rings and planets.
use vstd::prelude::*;
use crate::random::random_ratio;
use rand::rngs::StdRng;

verus! {

/// An object circling the sun.
#[derive(Clone, Copy, Debug, PartialEq, Eq, Structural)]
pub enum BgObject {
    Ring,
    Planet,
}

/// The most rings that follow each other.
pub const MAX_CONSECUTIVE_RINGS: u8 = 3;

/// The kind of the next object, after `consecutive_rings` rings in a row: a ring when
/// none came just before, a planet after the longest run of rings, and otherwise a ring
/// exactly when the draw came up.
pub open spec fn spec_next_bg_object(consecutive_rings: u8, ring_drawn: bool) -> BgObject {
    if consecutive_rings == 0 || (consecutive_rings < MAX_CONSECUTIVE_RINGS && ring_drawn) {
        BgObject::Ring
    } else {
        BgObject::Planet
    }
}

/// Decides the next object from the number of rings just before it and the draw that
/// favours a ring.
pub fn next_bg_object(consecutive_rings: u8, ring_drawn: bool) -> (r: BgObject)
    ensures
        r == spec_next_bg_object(consecutive_rings, ring_drawn),
{
    if consecutive_rings == 0 || (consecutive_rings < MAX_CONSECUTIVE_RINGS && ring_drawn) {
        BgObject::Ring
    } else {
        BgObject::Planet
    }
}

/// Objects `j` to `j + 3` are all rings.
pub open spec fn four_rings_at(s: Seq<BgObject>, j: int) -> bool {
    s[j] == BgObject::Ring && s[j + 1] == BgObject::Ring && s[j + 2] == BgObject::Ring && s[j + 3]
        == BgObject::Ring
}

/// When object `j` is a planet, the object after it is a ring.
pub open spec fn ring_after_planet(s: Seq<BgObject>, j: int) -> bool {
    s[j] == BgObject::Planet ==> s[j + 1] == BgObject::Ring
}

/// The rules a backdrop keeps: it opens with a ring, a ring follows every planet, and no
/// more than three rings follow each other.
pub open spec fn bg_rules(s: Seq<BgObject>) -> bool {
    &&& s.len() > 0 ==> s[0] == BgObject::Ring
    &&& forall|j: int| 0 <= j < s.len() - 1 ==> #[trigger] ring_after_planet(s, j)
    &&& forall|j: int| 0 <= j <= s.len() - 4 ==> !#[trigger] four_rings_at(s, j)
}

/// The kinds of the `count` objects of a backdrop, drawing a two-in-three chance of a ring
/// for each object that follows fewer than three rings.
pub fn bg_object_kinds(count: usize, rng: &mut StdRng) -> (r: Vec<BgObject>)
    ensures
        r@.len() == count,
        bg_rules(r@),
{
    let mut kinds: Vec<BgObject> = Vec::new();
    let mut consecutive_rings: u8 = 0;
    let mut i: usize = 0;
    while i < count
        invariant
            i <= count,
            kinds@.len() == i,
            consecutive_rings <= MAX_CONSECUTIVE_RINGS,
            consecutive_rings <= i,
            i > 0 ==> kinds@[0] == BgObject::Ring,
            forall|j: int| i - consecutive_rings <= j < i ==> #[trigger] kinds@[j] == BgObject::Ring,
            consecutive_rings < i ==> kinds@[i - consecutive_rings - 1] == BgObject::Planet,
            bg_rules(kinds@),
        decreases count - i,
    {
        let ghost before = kinds@;
        let ghost c = consecutive_rings as int;
        let ring_drawn = if consecutive_rings < MAX_CONSECUTIVE_RINGS {
            random_ratio(rng, 2, 3)
        } else {
            false
        };
        let kind = next_bg_object(consecutive_rings, ring_drawn);
        kinds.push(kind);
        proof {
            assert forall|j: int| 0 <= j < kinds@.len() - 1 implies #[trigger] ring_after_planet(kinds@, j) by {
                if j + 1 < i {
                    assert(ring_after_planet(before, j));
                } else if kinds@[j] == BgObject::Planet {
                    assert(before[j] == BgObject::Planet);
                    assert(c == 0);
                }
            }
            assert forall|j: int| 0 <= j <= kinds@.len() - 4 implies !#[trigger] four_rings_at(kinds@, j) by {
                if j + 3 < i {
                    assert(!four_rings_at(before, j));
                } else if kind == BgObject::Ring {
                    assert(c < 3);
                    if c < i {
                        assert(before[i - c - 1] == BgObject::Planet);
                    }
                    assert(kinds@[i - c - 1] == BgObject::Planet);
                }
            }
        }
        if kind == BgObject::Ring {
            consecutive_rings = consecutive_rings + 1;
        } else {
            consecutive_rings = 0;
        }
        i = i + 1;
    }
    kinds
}

} // verus!
