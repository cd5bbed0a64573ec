use vstd::prelude::*;

use crate::card::{Action, Card, CardType, Curse, Treasure, Victory};
use crate::error::GameError;

verus! {

/// The number of empty piles at which the game ends.
pub const EMPTY_PILES_TO_END: u8 = 3;

/// Whether `piles` holds a pile of `card`.
pub open spec fn has_pile(piles: Seq<(Card, u8)>, card: Card) -> bool {
    exists|i: int| 0 <= i < piles.len() && (#[trigger] piles[i]).0 == card
}

/// What is left of the pile of `card` in `piles`; `None` when `card` has no pile.
pub open spec fn pile_count(piles: Seq<(Card, u8)>, card: Card) -> Option<u8> {
    if has_pile(piles, card) {
        Some(piles[choose|i: int| 0 <= i < piles.len() && (#[trigger] piles[i]).0 == card].1)
    } else {
        None
    }
}

/// No card has two piles.
pub open spec fn unique_piles(piles: Seq<(Card, u8)>) -> bool {
    forall|i: int, j: int|
        0 <= i < piles.len() && 0 <= j < piles.len() && (#[trigger] piles[i]).0 == (
        #[trigger] piles[j]).0 ==> i == j
}

/// No card has two piles, and every pile holds cards of category `t`.
pub open spec fn piles_wf(piles: Seq<(Card, u8)>, t: CardType) -> bool {
    &&& unique_piles(piles)
    &&& forall|i: int| 0 <= i < piles.len() ==> (#[trigger] piles[i]).0.spec_card_type() == t
}

/// How many piles of `piles` are empty.
pub open spec fn empty_piles(piles: Seq<(Card, u8)>) -> nat
    decreases piles.len(),
{
    if piles.len() == 0 {
        0
    } else {
        empty_piles(piles.drop_last()) + if piles.last().1 == 0 {
            1nat
        } else {
            0nat
        }
    }
}

/// The shared stock of cards on sale, one pile per card, kept by category.
pub struct Supply {
    pub treasures: Vec<(Card, u8)>,
    pub actions: Vec<(Card, u8)>,
    pub victories: Vec<(Card, u8)>,
    pub curses: Vec<(Card, u8)>,
}

/// The piles of a supply, by category.
pub struct SupplyView {
    pub treasures: Seq<(Card, u8)>,
    pub actions: Seq<(Card, u8)>,
    pub victories: Seq<(Card, u8)>,
    pub curses: Seq<(Card, u8)>,
}

impl View for Supply {
    type V = SupplyView;

    open spec fn view(&self) -> SupplyView {
        SupplyView {
            treasures: self.treasures@,
            actions: self.actions@,
            victories: self.victories@,
            curses: self.curses@,
        }
    }
}

/// The piles a game starts with.
pub open spec fn standard_supply() -> SupplyView {
    SupplyView {
        treasures: seq![
            (Card::Treasure(Treasure::Copper), 60u8),
            (Card::Treasure(Treasure::Silver), 40u8),
            (Card::Treasure(Treasure::Gold), 30u8),
        ],
        actions: seq![
            (Card::Action(Action::Moat), 10u8),
            (Card::Action(Action::Village), 10u8),
            (Card::Action(Action::Smithy), 10u8),
            (Card::Action(Action::Festival), 10u8),
            (Card::Action(Action::Market), 10u8),
            (Card::Action(Action::Laboratory), 10u8),
        ],
        victories: seq![
            (Card::Victory(Victory::Province), 10u8),
            (Card::Victory(Victory::Duchy), 10u8),
            (Card::Victory(Victory::Estate), 10u8),
        ],
        curses: seq![(Card::Curse(Curse::Curse), 10u8)],
    }
}

impl SupplyView {
    pub open spec fn wf(&self) -> bool {
        &&& piles_wf(self.treasures, CardType::Treasure)
        &&& piles_wf(self.actions, CardType::Action)
        &&& piles_wf(self.victories, CardType::Victory)
        &&& piles_wf(self.curses, CardType::Curse)
        &&& self.treasures.len() <= 3
        &&& self.actions.len() <= 26
        &&& self.victories.len() <= 3
        &&& self.curses.len() <= 1
    }

    /// The piles that hold cards of category `t`.
    pub open spec fn piles_for(&self, t: CardType) -> Seq<(Card, u8)> {
        match t {
            CardType::Treasure => self.treasures,
            CardType::Action => self.actions,
            CardType::Victory => self.victories,
            CardType::Curse => self.curses,
        }
    }

    /// What is left of the pile of `card`; `None` when the game has no such pile.
    pub open spec fn count(&self, card: Card) -> Option<u8> {
        pile_count(self.piles_for(card.spec_card_type()), card)
    }

    /// How many piles are empty.
    pub open spec fn num_empty(&self) -> nat {
        empty_piles(self.treasures) + empty_piles(self.actions) + empty_piles(self.victories)
            + empty_piles(self.curses)
    }

    /// Whether the game is over: the Province pile is empty, or enough piles are.
    pub open spec fn game_over(&self) -> bool {
        self.count(Card::Victory(Victory::Province)) == Some(0u8) || self.num_empty()
            >= EMPTY_PILES_TO_END
    }

    /// `b` is `a` with `k` cards fewer in the pile of `card`, which held at least `k`.
    pub open spec fn took_n(a: SupplyView, b: SupplyView, card: Card, k: nat) -> bool {
        &&& b.wf()
        &&& a.count(card) matches Some(n) && n >= k && b.count(card) == Some((n - k) as u8)
        &&& forall|c: Card| c != card ==> #[trigger] b.count(c) == a.count(c)
    }

    /// `b` is `a` with one card fewer in the pile of `card`, which was not empty.
    pub open spec fn took(a: SupplyView, b: SupplyView, card: Card) -> bool {
        SupplyView::took_n(a, b, card, 1)
    }
}

/// Where the pile of a card stands, that is what `pile_count` gives for it.
proof fn lemma_pile_count_at(piles: Seq<(Card, u8)>, i: int)
    requires
        unique_piles(piles),
        0 <= i < piles.len(),
    ensures
        pile_count(piles, piles[i].0) == Some(piles[i].1),
{
    assert(has_pile(piles, piles[i].0));
}

/// Changing the count of one pile changes what `pile_count` gives for its card alone.
proof fn lemma_pile_count_update(piles: Seq<(Card, u8)>, i: int, n: u8)
    requires
        unique_piles(piles),
        0 <= i < piles.len(),
    ensures
        unique_piles(piles.update(i, (piles[i].0, n))),
        forall|c: Card|
            #[trigger] pile_count(piles.update(i, (piles[i].0, n)), c) == if c == piles[i].0 {
                Some(n)
            } else {
                pile_count(piles, c)
            },
{
    let after = piles.update(i, (piles[i].0, n));
    assert forall|a: int, b: int|
        0 <= a < after.len() && 0 <= b < after.len() && (#[trigger] after[a]).0 == (
        #[trigger] after[b]).0 implies a == b by {
        assert(piles[a].0 == after[a].0 && piles[b].0 == after[b].0);
    }
    assert forall|c: Card|
        #[trigger] pile_count(after, c) == if c == piles[i].0 {
            Some(n)
        } else {
            pile_count(piles, c)
        } by {
        if c == piles[i].0 {
            lemma_pile_count_at(after, i);
        } else {
            if has_pile(piles, c) {
                let j = choose|j: int| 0 <= j < piles.len() && (#[trigger] piles[j]).0 == c;
                assert(after[j].0 == c);
                lemma_pile_count_at(piles, j);
                lemma_pile_count_at(after, j);
            } else {
                assert forall|j: int| 0 <= j < after.len() implies (#[trigger] after[j]).0 != c by {
                    assert(piles[j].0 == after[j].0);
                }
            }
        }
    }
}

/// How many of `piles` are empty; there are at most 26 of them.
fn count_empty(piles: &Vec<(Card, u8)>) -> (r: u8)
    requires
        piles@.len() <= 26,
    ensures
        r == empty_piles(piles@),
        r <= piles@.len(),
{
    let mut count: u8 = 0;
    for i in 0..piles.len()
        invariant
            piles@.len() <= 26,
            count == empty_piles(piles@.take(i as int)),
            count <= i,
    {
        assert(piles@.take(i + 1).drop_last() =~= piles@.take(i as int));
        if piles[i].1 == 0 {
            count = count + 1;
        }
    }
    assert(piles@.take(piles@.len() as int) =~= piles@);
    count
}

/// What is left of the pile of `card` in `piles`.
fn lookup_pile(piles: &Vec<(Card, u8)>, card: Card) -> (r: Option<u8>)
    requires
        unique_piles(piles@),
    ensures
        r == pile_count(piles@, card),
{
    for i in 0..piles.len()
        invariant
            unique_piles(piles@),
            forall|j: int| 0 <= j < i ==> (#[trigger] piles@[j]).0 != card,
    {
        if piles[i].0 == card {
            proof {
                lemma_pile_count_at(piles@, i as int);
            }
            return Some(piles[i].1);
        }
    }
    None
}

impl Supply {
    /// The piles a game starts with.
    pub fn standard() -> (r: Supply)
        ensures
            r@ == standard_supply(),
            r@.wf(),
    {
        let r = Supply {
            treasures: vec![
                (Card::Treasure(Treasure::Copper), 60),
                (Card::Treasure(Treasure::Silver), 40),
                (Card::Treasure(Treasure::Gold), 30),
            ],
            actions: vec![
                (Card::Action(Action::Moat), 10),
                (Card::Action(Action::Village), 10),
                (Card::Action(Action::Smithy), 10),
                (Card::Action(Action::Festival), 10),
                (Card::Action(Action::Market), 10),
                (Card::Action(Action::Laboratory), 10),
            ],
            victories: vec![
                (Card::Victory(Victory::Province), 10),
                (Card::Victory(Victory::Duchy), 10),
                (Card::Victory(Victory::Estate), 10),
            ],
            curses: vec![(Card::Curse(Curse::Curse), 10)],
        };
        assert(r@.treasures =~= standard_supply().treasures);
        assert(r@.actions =~= standard_supply().actions);
        assert(r@.victories =~= standard_supply().victories);
        assert(r@.curses =~= standard_supply().curses);
        r
    }
}

impl Supply {
    /// Takes one card from the pile of `card` in `pile`.
    pub fn take_from_supply_pile(pile: &mut Vec<(Card, u8)>, card: Card) -> (r: Result<
        (),
        GameError,
    >)
        requires
            unique_piles(old(pile)@),
        ensures
            unique_piles(final(pile)@),
            final(pile)@.len() == old(pile)@.len(),
            forall|i: int| 0 <= i < old(pile)@.len() ==> (#[trigger] final(pile)@[i]).0 == old(pile)@[i].0,
            match pile_count(old(pile)@, card) {
                None => r matches Err(GameError::CardNotFoundInSupply(_)) && final(pile)@ == old(pile)@,
                Some(n) => if n == 0 {
                    r matches Err(GameError::CardSupplyDepleted(_)) && final(pile)@ == old(pile)@
                } else {
                    &&& r is Ok
                    &&& pile_count(final(pile)@, card) == Some((n - 1) as u8)
                    &&& forall|c: Card| c != card ==> #[trigger] pile_count(final(pile)@, c) == pile_count(old(pile)@, c)
                },
            },
    {
        let len = pile.len();
        for i in 0..len
            invariant
                len == pile@.len(),
                unique_piles(pile@),
                pile@ == old(pile)@,
                forall|j: int| 0 <= j < i ==> (#[trigger] pile@[j]).0 != card,
        {
            if pile[i].0 == card {
                proof {
                    lemma_pile_count_at(pile@, i as int);
                }
                let count = pile[i].1;
                if count == 0 {
                    return Err(GameError::CardSupplyDepleted(card.name().to_owned()));
                }
                proof {
                    lemma_pile_count_update(pile@, i as int, (count - 1) as u8);
                }
                pile.set(i, (card, count - 1));
                return Ok(());
            }
        }
        Err(GameError::CardNotFoundInSupply(card.name().to_owned()))
    }

    /// Takes one card from the pile of `card`: refused when the game has no
    /// such pile or the pile is empty, and then nothing changes.
    pub fn take_card(&mut self, card: Card) -> (r: Result<(), GameError>)
        requires
            old(self)@.wf(),
        ensures
            final(self)@.wf(),
            match old(self)@.count(card) {
                None => r matches Err(GameError::CardNotFoundInSupply(_)) && final(self)@ == old(self)@,
                Some(n) => if n == 0 {
                    r matches Err(GameError::CardSupplyDepleted(_)) && final(self)@ == old(self)@
                } else {
                    r is Ok && SupplyView::took(old(self)@, final(self)@, card)
                },
            },
    {
        match card.card_type() {
            CardType::Treasure => Supply::take_from_supply_pile(&mut self.treasures, card),
            CardType::Victory => Supply::take_from_supply_pile(&mut self.victories, card),
            CardType::Action => Supply::take_from_supply_pile(&mut self.actions, card),
            CardType::Curse => Supply::take_from_supply_pile(&mut self.curses, card),
        }
    }

    /// What is left of the pile of `card`; `None` when the game has no such pile.
    pub fn remaining(&self, card: Card) -> (r: Option<u8>)
        requires
            self@.wf(),
        ensures
            r == self@.count(card),
    {
        match card.card_type() {
            CardType::Treasure => lookup_pile(&self.treasures, card),
            CardType::Victory => lookup_pile(&self.victories, card),
            CardType::Action => lookup_pile(&self.actions, card),
            CardType::Curse => lookup_pile(&self.curses, card),
        }
    }

    /// How many piles are empty.
    pub fn num_empty_supply_piles(&self) -> (r: u8)
        requires
            self@.wf(),
        ensures
            r == self@.num_empty(),
    {
        count_empty(&self.treasures) + count_empty(&self.victories) + count_empty(&self.actions)
            + count_empty(&self.curses)
    }

    /// Whether the game is over: the Province pile is empty, or three piles are.
    pub fn check_game_over(&self) -> (r: bool)
        requires
            self@.wf(),
        ensures
            r == self@.game_over(),
    {
        self.remaining(Card::Victory(Victory::Province)) == Some(0u8)
            || self.num_empty_supply_piles() >= EMPTY_PILES_TO_END
    }
}

} // verus!
