//! Keeping a marker component on one entity at most.
use vstd::prelude::*;

verus! {

/// The holders other than `target`, in order.
pub open spec fn others(holders: Seq<u64>, target: u64) -> Seq<u64> {
    holders.filter(|e: u64| e != target)
}

/// When `target` gains a marker that only one entity may hold: the entities among
/// `holders` to take the marker off, which are all of them but `target`.
pub fn ensure_single_at_most(holders: &Vec<u64>, target: u64) -> (r: Vec<u64>)
    ensures
        r@ == others(holders@, target),
        forall|e: u64| r@.contains(e) <==> holders@.contains(e) && e != target,
{
    let mut r: Vec<u64> = Vec::new();
    let mut i: usize = 0;
    while i < holders.len()
        invariant
            i <= holders@.len(),
            r@ == others(holders@.take(i as int), target),
            forall|e: u64| r@.contains(e) <==> holders@.take(i as int).contains(e) && e != target,
        decreases holders@.len() - i,
    {
        proof {
            reveal_with_fuel(Seq::filter, 1);
            assert(holders@.take(i as int + 1).drop_last() =~= holders@.take(i as int));
            assert(holders@.take(i as int + 1) =~= holders@.take(i as int).push(holders@[i as int]));
        }
        if holders[i] != target {
            r.push(holders[i]);
        }
        proof {
            broadcast use vstd::seq_lib::group_seq_properties;
            assert forall|e: u64| r@.contains(e) <==> holders@.take(i as int + 1).contains(e) && e != target by {
                assert(holders@.take(i as int + 1).contains(e) <==> holders@.take(i as int).contains(e) || e == holders@[i as int]);
            }
        }
        i = i + 1;
    }
    proof {
        assert(holders@.take(holders@.len() as int) =~= holders@);
    }
    r
}

/// After the marker is taken off every entity that `ensure_single_at_most` names, at most
/// one of the former holders keeps it: the one that just gained it.
pub proof fn lemma_single_holder_left(holders: Seq<u64>, target: u64, e: u64)
    requires
        holders.contains(e),
        !others(holders, target).contains(e),
    ensures
        e == target,
{
    if e != target {
        let i = choose|i: int| 0 <= i < holders.len() && #[trigger] holders[i] == e;
        holders.lemma_filter_contains(|x: u64| x != target, i);
    }
}

} // verus!
