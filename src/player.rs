use rand::rngs::StdRng;
use vstd::multiset::Multiset;
use vstd::prelude::*;

use crate::card::{Card, CardType, Treasure, Victory};
use crate::error::GameError;
use crate::game::GamePhase;
use crate::random::shuffle_cards;

verus! {

broadcast use {vstd::seq_lib::group_to_multiset_ensures, vstd::multiset::group_multiset_axioms};

/// The number of cards a player draws at the end of each turn.
pub const HAND_SIZE: usize = 5;

/// `x` as a `u32`, or `u32::MAX` where it does not fit.
pub open spec fn capped(x: int) -> u32 {
    if x > u32::MAX {
        u32::MAX
    } else {
        x as u32
    }
}

/// How many cards a draw of `n` takes from a pile of `len` cards.
pub open spec fn num_drawn(len: nat, n: nat) -> nat {
    if n <= len {
        n
    } else {
        len
    }
}

/// The cards a draw of `n` takes, in the order they reach the hand: the top
/// of a pile is its end.
pub open spec fn drawn(pile: Seq<Card>, n: nat) -> Seq<Card> {
    pile.skip(pile.len() - num_drawn(pile.len(), n)).reverse()
}

/// What is left of a pile after a draw of `n`.
pub open spec fn left_after(pile: Seq<Card>, n: nat) -> Seq<Card> {
    pile.take(pile.len() - num_drawn(pile.len(), n))
}

/// Whether some card of `cards` has category `t`.
pub open spec fn holds_type(cards: Seq<Card>, t: CardType) -> bool {
    exists|i: int| 0 <= i < cards.len() && (#[trigger] cards[i]).spec_card_type() == t
}

/// The sum of the victory points of `cards`.
pub open spec fn points_of(cards: Seq<Card>) -> nat
    decreases cards.len(),
{
    if cards.len() == 0 {
        0
    } else {
        points_of(cards.drop_last()) + cards.last().spec_points() as nat
    }
}

/// The phase a turn starts in for a hand: phases with nothing to play are skipped.
pub open spec fn starting_phase(hand: Seq<Card>) -> GamePhase {
    if holds_type(hand, CardType::Action) {
        GamePhase::ActionPhase
    } else if holds_type(hand, CardType::Treasure) {
        GamePhase::TreasurePhase
    } else {
        GamePhase::BuyPhase
    }
}

/// One participant: five card zones and the counters of the current turn.
pub struct Player {
    pub index: usize,
    pub hand: Vec<Card>,
    pub deck: Vec<Card>,
    pub discard: Vec<Card>,
    pub played: Vec<Card>,
    pub trashed: Vec<Card>,
    pub actions: u32,
    pub buys: u32,
    pub coins: u32,
}

/// What a player is, as the rules see it.
pub struct PlayerView {
    pub index: usize,
    pub hand: Seq<Card>,
    pub deck: Seq<Card>,
    pub discard: Seq<Card>,
    pub played: Seq<Card>,
    pub trashed: Seq<Card>,
    pub actions: u32,
    pub buys: u32,
    pub coins: u32,
}

impl View for Player {
    type V = PlayerView;

    open spec fn view(&self) -> PlayerView {
        PlayerView {
            index: self.index,
            hand: self.hand@,
            deck: self.deck@,
            discard: self.discard@,
            played: self.played@,
            trashed: self.trashed@,
            actions: self.actions,
            buys: self.buys,
            coins: self.coins,
        }
    }
}

impl PlayerView {
    /// Every card the player owns, whatever zone it lies in.
    pub open spec fn cards(&self) -> Multiset<Card> {
        self.deck.to_multiset().add(self.hand.to_multiset()).add(
            self.discard.to_multiset(),
        ).add(self.played.to_multiset()).add(self.trashed.to_multiset())
    }

    /// How many cards the player owns.
    pub open spec fn num_cards(&self) -> nat {
        self.deck.len() + self.hand.len() + self.discard.len() + self.played.len()
            + self.trashed.len()
    }

    /// The player's victory points, counted over every zone but the trash.
    pub open spec fn victory_points(&self) -> nat {
        points_of(self.hand) + points_of(self.deck) + points_of(self.discard) + points_of(
            self.played,
        )
    }

    /// The counters hold their value at the start of a turn.
    pub open spec fn has_fresh_counters(&self) -> bool {
        self.actions == 1 && self.buys == 1 && self.coins == 0
    }

    /// `b` differs from `a` at most in hand, deck and discard.
    pub open spec fn same_but_draw_zones(a: PlayerView, b: PlayerView) -> bool {
        &&& b.index == a.index
        &&& b.played == a.played
        &&& b.trashed == a.trashed
        &&& b.actions == a.actions
        &&& b.buys == a.buys
        &&& b.coins == a.coins
    }

    /// Hand, deck and discard after a draw of `n`: straight from the deck
    /// when it holds `n` cards, else from the deck on top of the shuffled
    /// discard, which is then empty.
    pub open spec fn draws(
        hand: Seq<Card>,
        deck: Seq<Card>,
        discard: Seq<Card>,
        n: nat,
        new_hand: Seq<Card>,
        new_deck: Seq<Card>,
        new_discard: Seq<Card>,
    ) -> bool {
        if n <= deck.len() {
            &&& new_deck == left_after(deck, n)
            &&& new_hand == hand + drawn(deck, n)
            &&& new_discard == discard
        } else {
            &&& new_discard.len() == 0
            &&& exists|s: Seq<Card>|
                #![trigger s.to_multiset(), left_after(s + deck, n)]
                s.to_multiset() == discard.to_multiset() && new_deck == left_after(s + deck, n)
                    && new_hand == hand + drawn(s + deck, n)
        }
    }

    /// `b` is `a` after the end of its turn: hand and played cards went to
    /// the discard pile, the counters were reset and a new hand was drawn.
    pub open spec fn turn_reset(a: PlayerView, b: PlayerView) -> bool {
        &&& b.has_fresh_counters()
        &&& b.index == a.index
        &&& b.played.len() == 0
        &&& b.trashed == a.trashed
        &&& PlayerView::draws(
            Seq::empty(),
            a.deck,
            a.discard + a.hand + a.played,
            HAND_SIZE as nat,
            b.hand,
            b.deck,
            b.discard,
        )
    }

    /// A player as a game starts: seven Coppers and three Estates, five of
    /// them in hand.
    pub open spec fn is_starting(&self, index: usize) -> bool {
        &&& self.index == index
        &&& self.has_fresh_counters()
        &&& self.hand.len() == HAND_SIZE
        &&& self.deck.len() == 10 - HAND_SIZE
        &&& self.discard.len() == 0
        &&& self.played.len() == 0
        &&& self.trashed.len() == 0
        &&& self.num_cards() == 10
        &&& self.cards().count(Card::Treasure(Treasure::Copper)) == 7
        &&& self.cards().count(Card::Victory(Victory::Estate)) == 3
    }

    /// `b` is `a` after a draw of `n` cards.
    pub open spec fn drew(a: PlayerView, b: PlayerView, n: nat) -> bool {
        &&& PlayerView::same_but_draw_zones(a, b)
        &&& PlayerView::draws(a.hand, a.deck, a.discard, n, b.hand, b.deck, b.discard)
    }
}

/// The cards a draw of `n` takes and the cards it leaves make up the pile.
proof fn lemma_draw_splits_pile(pile: Seq<Card>, n: nat)
    ensures
        left_after(pile, n).to_multiset().add(drawn(pile, n).to_multiset()) == pile.to_multiset(),
        left_after(pile, n).len() + drawn(pile, n).len() == pile.len(),
{
    let k = num_drawn(pile.len(), n);
    let top = pile.skip(pile.len() - k);
    assert(pile =~= left_after(pile, n) + top);
    vstd::seq_lib::lemma_multiset_commutative(left_after(pile, n), top);
    top.lemma_reverse_to_multiset();
}

/// A draw moves cards between hand, deck and discard and neither loses nor
/// duplicates one.
pub proof fn lemma_draw_keeps_cards(a: PlayerView, b: PlayerView, n: nat)
    requires
        PlayerView::drew(a, b, n),
    ensures
        b.cards() == a.cards(),
        b.num_cards() == a.num_cards(),
{
    if n <= a.deck.len() {
        lemma_draw_splits_pile(a.deck, n);
        vstd::seq_lib::lemma_multiset_commutative(a.hand, drawn(a.deck, n));
        assert(b.cards() =~= a.cards());
    } else {
        let s = choose|s: Seq<Card>|
            s.to_multiset() == a.discard.to_multiset() && b.deck == left_after(s + a.deck, n)
                && b.hand == a.hand + drawn(s + a.deck, n);
        let pile = s + a.deck;
        lemma_draw_splits_pile(pile, n);
        vstd::seq_lib::lemma_multiset_commutative(a.hand, drawn(pile, n));
        vstd::seq_lib::lemma_multiset_commutative(s, a.deck);
        assert(s.len() == a.discard.len()) by {
            assert(s.to_multiset().len() == s.len());
            assert(a.discard.to_multiset().len() == a.discard.len());
        }
        assert(b.discard =~= Seq::<Card>::empty());
        assert(b.discard.to_multiset() =~= Multiset::<Card>::empty());
        assert(b.deck.to_multiset().add(b.hand.to_multiset()) =~= pile.to_multiset().add(a.hand.to_multiset()));
        assert(b.cards() =~= a.cards());
    }
}

impl Player {
    /// Puts the deck in random order.
    pub fn shuffle_deck(&mut self, rng: &mut StdRng)
        ensures
            final(self).deck@.to_multiset() == old(self).deck@.to_multiset(),
            final(self).deck@.len() == old(self).deck@.len(),
            final(self).hand@ == old(self).hand@,
            final(self).discard@ == old(self).discard@,
            PlayerView::same_but_draw_zones(old(self)@, final(self)@),
    {
        shuffle_cards(&mut self.deck, rng);
    }

    /// Puts the discard pile in random order.
    pub fn shuffle_discard(&mut self, rng: &mut StdRng)
        ensures
            final(self).discard@.to_multiset() == old(self).discard@.to_multiset(),
            final(self).discard@.len() == old(self).discard@.len(),
            final(self).hand@ == old(self).hand@,
            final(self).deck@ == old(self).deck@,
            PlayerView::same_but_draw_zones(old(self)@, final(self)@),
    {
        shuffle_cards(&mut self.discard, rng);
    }

    /// Slides the discard pile under the deck, which stays on top.
    pub fn prepend_discard_to_deck(&mut self)
        ensures
            final(self).deck@ == old(self).discard@ + old(self).deck@,
            final(self).discard@.len() == 0,
            final(self).hand@ == old(self).hand@,
            PlayerView::same_but_draw_zones(old(self)@, final(self)@),
    {
        self.discard.append(&mut self.deck);
        std::mem::swap(&mut self.deck, &mut self.discard);
    }

    /// Moves up to `num_cards_to_draw` cards from the top of the deck to the
    /// hand. Where the deck is short, the shuffled discard pile first goes
    /// under it, once; a draw that still runs short takes what there is.
    pub fn draw(&mut self, num_cards_to_draw: usize, rng: &mut StdRng)
        ensures
            PlayerView::drew(old(self)@, final(self)@, num_cards_to_draw as nat),
            final(self)@.cards() == old(self)@.cards(),
            final(self)@.num_cards() == old(self)@.num_cards(),
    {
        let ghost start = self@;
        let ghost mut shuffled: Seq<Card> = Seq::empty();
        if self.deck.len() < num_cards_to_draw {
            self.shuffle_discard(rng);
            proof {
                shuffled = self.discard@;
            }
            self.prepend_discard_to_deck();
        }
        let ghost pile = self.deck@;
        let ghost hand = self.hand@;
        let ghost discard = self.discard@;
        for i in 0..num_cards_to_draw
            invariant
                self.deck@ == left_after(pile, i as nat),
                self.hand@ == hand + drawn(pile, i as nat),
                self.discard@ == discard,
                PlayerView::same_but_draw_zones(start, self@),
        {
            if let Some(card) = self.deck.pop() {
                self.hand.push(card);
            }
            assert(self.hand@ =~= hand + drawn(pile, (i + 1) as nat));
            assert(self.deck@ =~= left_after(pile, (i + 1) as nat));
        }
        proof {
            if start.deck.len() < num_cards_to_draw {
                assert(shuffled.to_multiset() == start.discard.to_multiset());
                assert(pile == shuffled + start.deck);
            }
            lemma_draw_keeps_cards(start, self@, num_cards_to_draw as nat);
        }
    }
}

/// How many cards a draw of `n` puts in the hand.
proof fn lemma_draw_count(a: PlayerView, b: PlayerView, n: nat)
    requires
        PlayerView::drew(a, b, n),
    ensures
        n <= a.deck.len() ==> b.hand.len() == a.hand.len() + n,
        a.deck.len() < n ==> b.hand.len() == a.hand.len() + num_drawn(
            a.deck.len() + a.discard.len(),
            n,
        ),
{
    if a.deck.len() < n {
        let s = choose|s: Seq<Card>|
            s.to_multiset() == a.discard.to_multiset() && b.deck == left_after(s + a.deck, n)
                && b.hand == a.hand + drawn(s + a.deck, n);
        assert(s.len() == a.discard.len()) by {
            assert(s.to_multiset().len() == s.len());
            assert(a.discard.to_multiset().len() == a.discard.len());
        }
    }
}

/// Drawing `n` cards when the deck alone is short of `n` but deck and discard
/// together are not puts exactly `n` cards in the hand and leaves the discard
/// pile empty.
pub proof fn lemma_reshuffle_fills_hand(a: PlayerView, b: PlayerView, n: nat)
    requires
        PlayerView::drew(a, b, n),
        a.deck.len() < n <= a.deck.len() + a.discard.len(),
    ensures
        b.hand.len() == a.hand.len() + n,
        b.discard.len() == 0,
{
    lemma_draw_count(a, b, n);
}

/// The sum of the victory points of `cards` added to `total`, saturating.
fn add_points(cards: &Vec<Card>, total: u32) -> (r: u32)
    ensures
        r == capped(total + points_of(cards@)),
{
    let mut acc = total;
    for i in 0..cards.len()
        invariant
            acc == capped(total + points_of(cards@.take(i as int))),
    {
        assert(cards@.take(i + 1).drop_last() =~= cards@.take(i as int));
        acc = acc.saturating_add(cards[i].points());
    }
    assert(cards@.take(cards@.len() as int) =~= cards@);
    acc
}

/// Whether some card of `cards` has category `t`.
fn holds_card_type(cards: &Vec<Card>, t: CardType) -> (r: bool)
    ensures
        r == holds_type(cards@, t),
{
    for i in 0..cards.len()
        invariant
            forall|j: int| 0 <= j < i ==> (#[trigger] cards@[j]).spec_card_type() != t,
    {
        if cards[i].card_type() == t {
            return true;
        }
    }
    false
}

impl Player {
    /// A player with the starting cards, seven Coppers and three Estates,
    /// shuffled, of which a hand is drawn.
    pub fn new(index: usize, rng: &mut StdRng) -> (r: Player)
        ensures
            r@.is_starting(index),
    {
        let mut player = Player {
            index,
            hand: Vec::new(),
            deck: Vec::new(),
            discard: Vec::new(),
            played: Vec::new(),
            trashed: Vec::new(),
            actions: 1,
            buys: 1,
            coins: 0,
        };
        let copper = Card::Treasure(Treasure::Copper);
        let estate = Card::Victory(Victory::Estate);
        for i in 0..7
            invariant
                player.deck@.len() == i,
                player.deck@.to_multiset().count(copper) == i,
                player.deck@.to_multiset().count(estate) == 0,
                copper == Card::Treasure(Treasure::Copper),
                estate == Card::Victory(Victory::Estate),
                player.index == index,
                player@.has_fresh_counters(),
                player.hand@.len() == 0,
                player.discard@.len() == 0,
                player.played@.len() == 0,
                player.trashed@.len() == 0,
        {
            let ghost before = player.deck@;
            player.deck.push(copper);
            assert(player.deck@.to_multiset() =~= before.to_multiset().insert(copper));
        }
        for i in 0..3
            invariant
                player.deck@.len() == 7 + i,
                player.deck@.to_multiset().count(copper) == 7,
                player.deck@.to_multiset().count(estate) == i,
                copper == Card::Treasure(Treasure::Copper),
                estate == Card::Victory(Victory::Estate),
                player.index == index,
                player@.has_fresh_counters(),
                player.hand@.len() == 0,
                player.discard@.len() == 0,
                player.played@.len() == 0,
                player.trashed@.len() == 0,
        {
            let ghost before = player.deck@;
            player.deck.push(estate);
            assert(player.deck@.to_multiset() =~= before.to_multiset().insert(estate));
        }
        player.shuffle_deck(rng);
        proof {
            assert(player.hand@.to_multiset() =~= Multiset::empty());
            assert(player.discard@.to_multiset() =~= Multiset::empty());
            assert(player.played@.to_multiset() =~= Multiset::empty());
            assert(player.trashed@.to_multiset() =~= Multiset::empty());
        }
        let ghost before = player@;
        player.draw(HAND_SIZE, rng);
        proof {
            lemma_draw_count(before, player@, HAND_SIZE as nat);
        }
        player
    }

    /// The player's victory points over hand, deck, discard and played cards,
    /// saturating at `u32::MAX`.
    pub fn get_victory_points(&self) -> (r: u32)
        ensures
            r == capped(self@.victory_points() as int),
    {
        let total = add_points(&self.hand, 0);
        let total = add_points(&self.deck, total);
        let total = add_points(&self.discard, total);
        add_points(&self.played, total)
    }

    /// The card at `card_index` in the hand.
    pub fn get_card_from_hand(&self, card_index: usize) -> (r: Result<Card, GameError>)
        ensures
            match r {
                Ok(card) => card_index < self.hand@.len() && card == self.hand@[card_index as int],
                Err(e) => card_index >= self.hand@.len() && e is CardNotFound,
            },
    {
        if card_index >= self.hand.len() {
            Err(GameError::CardNotFound("Index out of bounds".to_owned()))
        } else {
            Ok(self.hand[card_index])
        }
    }

    /// Takes the card at `card_index` out of the hand.
    pub fn remove_card_from_hand(&mut self, card_index: usize) -> (r: Result<Card, GameError>)
        ensures
            match r {
                Ok(card) => {
                    &&& card_index < old(self).hand@.len()
                    &&& card == old(self).hand@[card_index as int]
                    &&& final(self).hand@ == old(self).hand@.remove(card_index as int)
                    &&& final(self).deck@ == old(self).deck@
                    &&& final(self).discard@ == old(self).discard@
                    &&& PlayerView::same_but_draw_zones(old(self)@, final(self)@)
                },
                Err(e) => card_index >= old(self).hand@.len() && e is CardNotFound && final(self)@
                    == old(self)@,
            },
    {
        if card_index >= self.hand.len() {
            Err(GameError::CardNotFound("Index out of bounds".to_owned()))
        } else {
            Ok(self.hand.remove(card_index))
        }
    }

    /// Puts a card among those played this turn.
    pub fn play_card(&mut self, card: Card)
        ensures
            final(self).played@ == old(self).played@.push(card),
            final(self).hand@ == old(self).hand@,
            final(self).deck@ == old(self).deck@,
            final(self).discard@ == old(self).discard@,
            final(self).trashed@ == old(self).trashed@,
            final(self).index == old(self).index,
            final(self).actions == old(self).actions,
            final(self).buys == old(self).buys,
            final(self).coins == old(self).coins,
    {
        self.played.push(card);
    }

    /// Moves the whole hand onto the discard pile.
    pub fn discard_hand(&mut self)
        ensures
            final(self).discard@ == old(self).discard@ + old(self).hand@,
            final(self).hand@.len() == 0,
            final(self).deck@ == old(self).deck@,
            PlayerView::same_but_draw_zones(old(self)@, final(self)@),
    {
        self.discard.append(&mut self.hand);
    }

    /// Moves the cards played this turn onto the discard pile.
    pub fn clear_played(&mut self)
        ensures
            final(self).discard@ == old(self).discard@ + old(self).played@,
            final(self).played@.len() == 0,
            final(self).hand@ == old(self).hand@,
            final(self).deck@ == old(self).deck@,
            final(self).trashed@ == old(self).trashed@,
            final(self).index == old(self).index,
            final(self).actions == old(self).actions,
            final(self).buys == old(self).buys,
            final(self).coins == old(self).coins,
    {
        self.discard.append(&mut self.played);
    }

    /// Ends the player's turn: hand and played cards go to the discard pile,
    /// the counters are reset and a new hand is drawn.
    pub fn end_turn(&mut self, rng: &mut StdRng)
        ensures
            PlayerView::turn_reset(old(self)@, final(self)@),
            final(self).hand@.len() == num_drawn(
                (old(self).deck@.len() + old(self).discard@.len() + old(self).hand@.len()
                    + old(self).played@.len()) as nat,
                HAND_SIZE as nat,
            ),
            final(self)@.cards() == old(self)@.cards(),
            final(self)@.num_cards() == old(self)@.num_cards(),
    {
        self.discard_hand();
        self.clear_played();
        self.actions = 1;
        self.buys = 1;
        self.coins = 0;
        proof {
            assert(self.hand@ =~= Seq::empty());
            assert(self.played@ =~= Seq::empty());
            vstd::seq_lib::lemma_multiset_commutative(old(self).discard@, old(self).hand@);
            vstd::seq_lib::lemma_multiset_commutative(
                old(self).discard@ + old(self).hand@,
                old(self).played@,
            );
            assert(self@.cards() =~= old(self)@.cards());
        }
        let ghost before = self@;
        self.draw(HAND_SIZE, rng);
        proof {
            lemma_draw_count(before, self@, HAND_SIZE as nat);
        }
    }

    /// The phase the player's turn starts in.
    pub fn get_starting_game_phase(&self) -> (r: GamePhase)
        ensures
            r == starting_phase(self.hand@),
    {
        if self.has_action_cards_in_hand() {
            GamePhase::ActionPhase
        } else if self.has_treasure_cards_in_hand() {
            GamePhase::TreasurePhase
        } else {
            GamePhase::BuyPhase
        }
    }

    pub fn has_action_cards_in_hand(&self) -> (r: bool)
        ensures
            r == holds_type(self.hand@, CardType::Action),
    {
        holds_card_type(&self.hand, CardType::Action)
    }

    pub fn has_treasure_cards_in_hand(&self) -> (r: bool)
        ensures
            r == holds_type(self.hand@, CardType::Treasure),
    {
        holds_card_type(&self.hand, CardType::Treasure)
    }

    /// Puts a newly gained card on the discard pile.
    pub fn add_to_discard(&mut self, card: Card)
        ensures
            final(self).discard@ == old(self).discard@.push(card),
            final(self).hand@ == old(self).hand@,
            final(self).deck@ == old(self).deck@,
            PlayerView::same_but_draw_zones(old(self)@, final(self)@),
            final(self)@.cards() == old(self)@.cards().insert(card),
            final(self)@.num_cards() == old(self)@.num_cards() + 1,
    {
        self.discard.push(card);
        assert(self@.cards() =~= old(self)@.cards().insert(card));
    }
}

/// Playing the card at `i` moves it from the hand to the played cards and
/// neither loses nor duplicates one.
pub proof fn lemma_play_keeps_cards(p: PlayerView, i: int)
    requires
        0 <= i < p.hand.len(),
    ensures
        (PlayerView { hand: p.hand.remove(i), played: p.played.push(p.hand[i]), ..p }).cards()
            == p.cards(),
        (PlayerView { hand: p.hand.remove(i), played: p.played.push(p.hand[i]), ..p }).num_cards()
            == p.num_cards(),
{
    let q = PlayerView { hand: p.hand.remove(i), played: p.played.push(p.hand[i]), ..p };
    assert(q.cards() =~= p.cards());
}

} // verus!
