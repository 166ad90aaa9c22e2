//! The piles cards move between: the draw pile, the hand and the discard pile.
use vstd::prelude::*;
use crate::card::Card;
use crate::random::shuffle;
use rand::rngs::StdRng;

verus! {

/// The cards left to draw, top first.
#[derive(Debug)]
pub struct DrawPile(pub Vec<Card>);

/// The cards played or discarded since the last reshuffle.
#[derive(Debug)]
pub struct DiscardPile(Vec<Card>);

impl Default for DrawPile {
    fn default() -> (r: Self)
        ensures
            r.0@.len() == 0,
    {
        DrawPile(Vec::new())
    }
}

impl Default for DiscardPile {
    fn default() -> (r: Self)
        ensures
            r@.len() == 0,
    {
        DiscardPile(Vec::new())
    }
}

impl View for DiscardPile {
    type V = Seq<Card>;

    closed spec fn view(&self) -> Seq<Card> {
        self.0@
    }
}

impl DiscardPile {
    /// The cards on the pile, oldest first.
    pub fn cards(&self) -> (r: &Vec<Card>)
        ensures
            r@ == self@,
    {
        &self.0
    }

    /// Takes every card off the pile, oldest first.
    pub fn take_all(&mut self) -> (r: Vec<Card>)
        ensures
            r@ == old(self)@,
            final(self)@.len() == 0,
    {
        let mut taken: Vec<Card> = Vec::new();
        std::mem::swap(&mut taken, &mut self.0);
        taken
    }
}

/// The number of cards a full hand holds; never 0.
#[derive(Clone, Copy, Debug, PartialEq, Eq, Structural)]
pub struct HandSize(u8);

impl HandSize {
    #[verifier::type_invariant]
    spec fn nonzero(self) -> bool {
        self.0 > 0
    }

    /// The number of cards.
    pub closed spec fn size(self) -> int {
        self.0 as int
    }

    /// A hand size of `n` cards; `None` for 0.
    pub fn new(n: u8) -> (r: Option<HandSize>)
        ensures
            n == 0 ==> r is None,
            n != 0 ==> (r matches Some(h) && h.size() == n),
    {
        if n == 0 {
            None
        } else {
            Some(HandSize(n))
        }
    }

    pub fn as_usize(&self) -> (r: usize)
        ensures
            r == self.size(),
            r > 0,
    {
        proof {
            use_type_invariant(self);
        }
        self.0 as usize
    }
}

impl Default for HandSize {
    fn default() -> (r: Self)
        ensures
            r.size() == 5,
    {
        HandSize(5)
    }
}

/// The piles of a player; `first_hand` holds until the first hand has been dealt.
#[derive(Clone, Copy, Debug, PartialEq, Eq, Structural, Default)]
pub struct Piles {
    pub first_hand: bool,
}

/// Puts a played or discarded card on the discard pile, and answers which of the selected
/// cards must be deselected: every one but the discarded card itself.
pub fn discard_card(
    discard_pile: &mut DiscardPile,
    card: Card,
    selected_cards: &Vec<u64>,
    card_e: u64,
) -> (r: Vec<u64>)
    ensures
        final(discard_pile)@ == old(discard_pile)@.push(card),
        r@ == selected_cards@.filter(|e: u64| e != card_e),
{
    discard_pile.0.push(card);
    let mut res: Vec<u64> = Vec::new();
    let mut i: usize = 0;
    while i < selected_cards.len()
        invariant
            i <= selected_cards@.len(),
            res@ == selected_cards@.take(i as int).filter(|e: u64| e != card_e),
        decreases selected_cards@.len() - i,
    {
        proof {
            reveal_with_fuel(Seq::filter, 1);
            assert(selected_cards@.take(i + 1).drop_last() =~= selected_cards@.take(i as int));
        }
        if selected_cards[i] != card_e {
            res.push(selected_cards[i]);
        }
        i = i + 1;
    }
    assert(selected_cards@.take(selected_cards@.len() as int) =~= selected_cards@);
    res
}

/// How many cards `fill_hand` deals.
pub open spec fn dealt_count(need: int, draw: int, discard: int) -> int {
    if need <= draw + discard { need } else { draw + discard }
}

/// Deals cards until the hand is full: from the top of the draw pile, and when it runs out,
/// from the discard pile shuffled, whose cards left over become the new draw pile.
pub fn fill_hand(
    draw_pile: &mut DrawPile,
    discard_pile: &mut DiscardPile,
    current_hand_len: usize,
    hand_size: &HandSize,
    rng: &mut StdRng,
) -> (drawn: Vec<Card>)
    requires
        current_hand_len <= hand_size.size(),
    ensures
        ({
            let need = hand_size.size() - current_hand_len;
            let d = old(draw_pile).0@;
            let x = old(discard_pile)@;
            &&& need <= d.len() ==> {
                &&& drawn@ == d.take(need)
                &&& final(draw_pile).0@ == d.skip(need)
                &&& final(discard_pile)@ == x
            }
            &&& need > d.len() ==> {
                &&& final(discard_pile)@.len() == 0
                &&& exists|s: Seq<Card>| #![trigger s.to_multiset()] {
                    let k = dealt_count(need - d.len(), 0, s.len() as int);
                    &&& s.to_multiset() == x.to_multiset()
                    &&& drawn@ == d + s.take(k)
                    &&& final(draw_pile).0@ == s.skip(k)
                }
            }
            &&& drawn@.len() == dealt_count(need, d.len() as int, x.len() as int)
            &&& (drawn@ + final(draw_pile).0@ + final(discard_pile)@).to_multiset() == (d
                + x).to_multiset()
        }),
{
    let need = hand_size.as_usize() - current_hand_len;
    let ghost d = draw_pile.0@;
    let ghost x = discard_pile@;
    if need == 0 {
        proof {
            assert(d.take(0) =~= Seq::<Card>::empty());
            assert(d.skip(0) =~= d);
            assert(Seq::<Card>::empty() + d + x =~= d + x);
        }
        return Vec::new();
    }
    let draw_len = draw_pile.0.len();
    let take = if need < draw_len { need } else { draw_len };
    let mut cards_to_draw: Vec<Card> = Vec::new();
    let mut rest: Vec<Card> = Vec::new();
    let mut i: usize = 0;
    while i < draw_len
        invariant
            draw_len == d.len(),
            draw_pile.0@ == d,
            take <= draw_len,
            i <= draw_len,
            i <= take ==> cards_to_draw@ == d.take(i as int) && rest@.len() == 0,
            i > take ==> cards_to_draw@ == d.take(take as int) && rest@ == d.subrange(take as int, i as int),
        decreases draw_len - i,
    {
        if i < take {
            cards_to_draw.push(draw_pile.0[i]);
            assert(cards_to_draw@ =~= d.take(i + 1));
        } else {
            rest.push(draw_pile.0[i]);
            assert(rest@ =~= d.subrange(take as int, i + 1));
        }
        i = i + 1;
    }
    draw_pile.0 = rest;
    proof {
        assert(cards_to_draw@ =~= d.take(take as int));
        assert(draw_pile.0@ =~= d.skip(take as int));
    }
    if cards_to_draw.len() < need {
        let mut new_draw = discard_pile.take_all();
        shuffle(&mut new_draw, rng);
        let ghost s = new_draw@;
        let ghost k = dealt_count(need - d.len(), 0, s.len() as int);
        proof {
            s.to_multiset_ensures();
            x.to_multiset_ensures();
            assert(s.len() == x.len());
        }
        let mut j: usize = 0;
        while j < new_draw.len()
            invariant
                new_draw@ == s,
                take == d.len(),
                need > d.len(),
                k == dealt_count(need - d.len(), 0, s.len() as int),
                j <= s.len(),
                j <= k ==> cards_to_draw@ == d + s.take(j as int) && draw_pile.0@.len() == 0,
                j > k ==> cards_to_draw@ == d + s.take(k) && draw_pile.0@ == s.subrange(k, j as int),
            decreases s.len() - j,
        {
            if cards_to_draw.len() < need {
                cards_to_draw.push(new_draw[j]);
                assert(cards_to_draw@ =~= d + s.take(j + 1));
            } else {
                draw_pile.0.push(new_draw[j]);
                assert(draw_pile.0@ =~= s.subrange(k, j + 1));
            }
            j = j + 1;
        }
        proof {
            assert(cards_to_draw@ =~= d + s.take(k));
            assert(draw_pile.0@ =~= s.skip(k));
            assert(s.take(k) + s.skip(k) =~= s);
            assert(cards_to_draw@ + draw_pile.0@ + discard_pile@ =~= d + s);
            lemma_multiset_concat(d, s);
            lemma_multiset_concat(d, x);
        }
    } else {
        proof {
            assert(cards_to_draw@ + draw_pile.0@ + discard_pile@ =~= d + x);
        }
    }
    cards_to_draw
}

/// The multiset of a concatenation is the sum of the multisets.
proof fn lemma_multiset_concat(a: Seq<Card>, b: Seq<Card>)
    ensures
        (a + b).to_multiset() == a.to_multiset().add(b.to_multiset()),
{
    vstd::seq_lib::lemma_multiset_commutative(a, b);
}

} // verus!
