use rand::rngs::StdRng;
use vstd::prelude::*;

use crate::card::{Action, Card, CardType, Curse, Treasure};
use crate::error::GameError;
use crate::player::{
    capped, drawn, holds_type, left_after, num_drawn, starting_phase, Player, PlayerView, HAND_SIZE,
};
use crate::random::choose_index;
use crate::supply::{standard_supply, Supply, SupplyView};

verus! {

broadcast use vstd::seq_lib::group_to_multiset_ensures;

/// The phase of the current player's turn.
#[derive(Clone, Copy, Debug, PartialEq, Eq, Structural)]
pub enum GamePhase {
    ActionPhase,
    TreasurePhase,
    BuyPhase,
}

/// A move a player submits.
#[derive(Clone, Copy, Debug, PartialEq, Eq, Structural)]
pub enum GameMove {
    PlayCard { card_index: usize },
    BuyCard { card: Card },
    DiscardCard { card: Card },
    EndActions,
    EndTreasures,
    EndTurn,
}

/// What an action card does to the players other than the one who plays it.
#[derive(Clone, Copy, Debug, PartialEq, Eq, Structural)]
pub enum OthersEffect {
    Unaffected,
    /// Each of them draws a card.
    DrawOne,
    /// Each of them, in turn order from the next player on, gains a Curse
    /// while the Curse pile lasts.
    GainCurse,
}

/// What an action card does when played.
#[derive(Clone, Copy, Debug, PartialEq, Eq, Structural)]
pub struct Effect {
    /// Cards the player draws.
    pub cards: usize,
    /// Extra actions.
    pub actions: u32,
    /// Extra buys.
    pub buys: u32,
    pub others: OthersEffect,
}

impl Action {
    /// The effect table; `None` for a card whose effect the game does not offer.
    pub open spec fn spec_effect(&self) -> Option<Effect> {
        match self {
            Action::Moat => Some(Effect { cards: 2, actions: 0, buys: 0, others: OthersEffect::Unaffected }),
            Action::Village => Some(Effect { cards: 1, actions: 2, buys: 0, others: OthersEffect::Unaffected }),
            Action::Smithy => Some(Effect { cards: 3, actions: 0, buys: 0, others: OthersEffect::Unaffected }),
            Action::CouncilRoom => Some(Effect { cards: 4, actions: 0, buys: 1, others: OthersEffect::DrawOne }),
            Action::Festival => Some(Effect { cards: 0, actions: 2, buys: 1, others: OthersEffect::Unaffected }),
            Action::Laboratory => Some(Effect { cards: 2, actions: 1, buys: 0, others: OthersEffect::Unaffected }),
            Action::Market => Some(Effect { cards: 1, actions: 1, buys: 1, others: OthersEffect::Unaffected }),
            Action::Witch => Some(Effect { cards: 2, actions: 0, buys: 0, others: OthersEffect::GainCurse }),
            _ => None,
        }
    }

    #[verifier::when_used_as_spec(spec_effect)]
    pub fn effect(&self) -> (r: Option<Effect>)
        ensures
            r == self.spec_effect(),
    {
        match self {
            Action::Moat => Some(Effect { cards: 2, actions: 0, buys: 0, others: OthersEffect::Unaffected }),
            Action::Village => Some(Effect { cards: 1, actions: 2, buys: 0, others: OthersEffect::Unaffected }),
            Action::Smithy => Some(Effect { cards: 3, actions: 0, buys: 0, others: OthersEffect::Unaffected }),
            Action::CouncilRoom => Some(Effect { cards: 4, actions: 0, buys: 1, others: OthersEffect::DrawOne }),
            Action::Festival => Some(Effect { cards: 0, actions: 2, buys: 1, others: OthersEffect::Unaffected }),
            Action::Laboratory => Some(Effect { cards: 2, actions: 1, buys: 0, others: OthersEffect::Unaffected }),
            Action::Market => Some(Effect { cards: 1, actions: 1, buys: 1, others: OthersEffect::Unaffected }),
            Action::Witch => Some(Effect { cards: 2, actions: 0, buys: 0, others: OthersEffect::GainCurse }),
            _ => None,
        }
    }
}

/// Why the rules refuse a move; each kind is reported by one variant of `GameError`.
#[derive(Clone, Copy, Debug, PartialEq, Eq, Structural)]
pub enum Refusal {
    CardNotFound,
    CardNotFoundInSupply,
    CardSupplyDepleted,
    NotEnoughMoney { required: u32, available: u32 },
    InvalidMove,
}

/// Whether `e` reports the refusal `f`.
pub open spec fn reports(e: GameError, f: Refusal) -> bool {
    match f {
        Refusal::CardNotFound => e is CardNotFound,
        Refusal::CardNotFoundInSupply => e is CardNotFoundInSupply,
        Refusal::CardSupplyDepleted => e is CardSupplyDepleted,
        Refusal::NotEnoughMoney { required, available } => e == GameError::NotEnoughMoney {
            required,
            available,
        },
        Refusal::InvalidMove => e is InvalidMove,
    }
}

/// How many seats after seat `p` seat `j` comes, going round a table of `n`.
pub open spec fn seats_after(p: int, j: int, n: int) -> int {
    if j > p {
        j - p
    } else {
        j + n - p
    }
}

/// The game as the rules see it.
pub struct GameView {
    pub players: Seq<PlayerView>,
    pub supply: SupplyView,
    pub curr: usize,
    pub phase: GamePhase,
    pub winner: Option<usize>,
}

/// A game in progress.
pub struct Game {
    pub players: Vec<Player>,
    pub supply: Supply,
    pub curr_player_index: usize,
    pub game_phase: GamePhase,
    pub winner: Option<usize>,
    /// Where the shuffles and the choice of the first player come from.
    pub rng: StdRng,
}

impl View for Game {
    type V = GameView;

    open spec fn view(&self) -> GameView {
        GameView {
            players: self.players@.map_values(|p: Player| p@),
            supply: self.supply@,
            curr: self.curr_player_index,
            phase: self.game_phase,
            winner: self.winner,
        }
    }
}

impl GameView {
    pub open spec fn wf(&self) -> bool {
        &&& self.players.len() >= 1
        &&& self.curr < self.players.len()
        &&& self.supply.wf()
        &&& forall|i: int| 0 <= i < self.players.len() ==> (#[trigger] self.players[i]).index == i
        &&& forall|i: int|
            0 <= i < self.players.len() && i != self.curr
                ==> (#[trigger] self.players[i]).has_fresh_counters()
        &&& self.winner matches Some(w) ==> w < self.players.len()
    }

    /// The player whose turn it is.
    pub open spec fn current(&self) -> PlayerView {
        self.players[self.curr as int]
    }

    /// The seat after the current one.
    pub open spec fn next_seat(&self) -> usize {
        if self.curr + 1 < self.players.len() {
            (self.curr + 1) as usize
        } else {
            0
        }
    }

    /// A player's score: victory points, saturating at `u32::MAX`.
    pub open spec fn score(p: PlayerView) -> u32 {
        capped(p.victory_points() as int)
    }

    /// Seat `w` has the highest score, and no earlier seat has as much.
    pub open spec fn is_leader(players: Seq<PlayerView>, w: int) -> bool {
        &&& 0 <= w < players.len()
        &&& forall|j: int|
            0 <= j < players.len() ==> GameView::score(#[trigger] players[j]) <= GameView::score(
                players[w],
            )
        &&& forall|j: int|
            0 <= j < w ==> GameView::score(#[trigger] players[j]) < GameView::score(players[w])
    }

    /// `b` is `a` after the current player's turn ended: they discarded and
    /// drew, the next seat took the turn in the phase its hand calls for, and
    /// the leader won if the supply said the game was over.
    pub open spec fn ended_turn(a: GameView, b: GameView) -> bool {
        let p = a.curr as int;
        &&& b.players.len() == a.players.len()
        &&& PlayerView::turn_reset(a.players[p], b.players[p])
        &&& forall|j: int| 0 <= j < a.players.len() && j != p ==> #[trigger] b.players[j] == a.players[j]
        &&& b.curr == a.next_seat()
        &&& b.phase == starting_phase(b.players[b.curr as int].hand)
        &&& b.supply == a.supply
        &&& if a.supply.game_over() {
            b.winner matches Some(w) && GameView::is_leader(b.players, w as int)
        } else {
            b.winner == a.winner
        }
    }

    /// Whether player `j` gains a Curse when the current player of `a` plays
    /// a card that hands them out.
    pub open spec fn gets_curse(a: GameView, j: int) -> bool {
        &&& j != a.curr
        &&& a.supply.count(Card::Curse(Curse::Curse)) matches Some(c) && seats_after(
            a.curr as int,
            j,
            a.players.len() as int,
        ) <= c
    }

    /// How player `j` of `a`, not the current one, is `after` the effect `e`.
    pub open spec fn other_after(a: GameView, after: Seq<PlayerView>, j: int, e: OthersEffect) -> bool {
        match e {
            OthersEffect::Unaffected => after[j] == a.players[j],
            OthersEffect::DrawOne => PlayerView::drew(a.players[j], after[j], 1),
            OthersEffect::GainCurse => if GameView::gets_curse(a, j) {
                after[j] == PlayerView {
                    discard: a.players[j].discard.push(Card::Curse(Curse::Curse)),
                    ..a.players[j]
                }
            } else {
                after[j] == a.players[j]
            },
        }
    }

    /// `b` is `a` after the effect `e` resolved for the current player.
    pub open spec fn resolved(a: GameView, b: GameView, e: Effect) -> bool {
        let p = a.curr as int;
        let before = a.players[p];
        let after = b.players[p];
        let n = a.players.len();
        &&& b.players.len() == n
        &&& b.curr == a.curr
        &&& b.winner == a.winner
        &&& PlayerView::draws(
            before.hand,
            before.deck,
            before.discard,
            e.cards as nat,
            after.hand,
            after.deck,
            after.discard,
        )
        &&& after.index == before.index
        &&& after.played == before.played
        &&& after.trashed == before.trashed
        &&& after.coins == before.coins
        &&& after.actions == capped(before.actions + e.actions)
        &&& after.buys == capped(before.buys + e.buys)
        &&& forall|j: int|
            0 <= j < n && j != p ==> #[trigger] GameView::other_after(a, b.players, j, e.others)
        &&& if e.others == OthersEffect::GainCurse {
            match a.supply.count(Card::Curse(Curse::Curse)) {
                Some(c) => SupplyView::took_n(
                    a.supply,
                    b.supply,
                    Card::Curse(Curse::Curse),
                    if c < n - 1 {
                        c as nat
                    } else {
                        (n - 1) as nat
                    },
                ),
                None => b.supply == a.supply,
            }
        } else {
            b.supply == a.supply
        }
    }

    /// Why the rules refuse move `m` by the player in seat `who`, if they do.
    pub open spec fn refusal(a: GameView, who: usize, m: GameMove) -> Option<Refusal> {
        let p = a.current();
        if a.winner is Some || who != a.curr {
            Some(Refusal::InvalidMove)
        } else {
            match (a.phase, m) {
                (GamePhase::ActionPhase, GameMove::PlayCard { card_index }) => {
                    if card_index >= p.hand.len() {
                        Some(Refusal::CardNotFound)
                    } else {
                        match p.hand[card_index as int] {
                            Card::Action(action) => if p.actions == 0 || action.spec_effect() is None {
                                Some(Refusal::InvalidMove)
                            } else {
                                None
                            },
                            _ => Some(Refusal::InvalidMove),
                        }
                    }
                },
                (GamePhase::ActionPhase, GameMove::EndActions) => None,
                (GamePhase::TreasurePhase, GameMove::PlayCard { card_index }) => {
                    if card_index >= p.hand.len() {
                        Some(Refusal::CardNotFound)
                    } else if p.hand[card_index as int] is Treasure {
                        None
                    } else {
                        Some(Refusal::InvalidMove)
                    }
                },
                (GamePhase::TreasurePhase, GameMove::EndTreasures) => None,
                (GamePhase::BuyPhase, GameMove::BuyCard { card }) => {
                    if p.buys == 0 {
                        Some(Refusal::InvalidMove)
                    } else if p.coins < card.spec_cost() {
                        Some(Refusal::NotEnoughMoney { required: card.spec_cost(), available: p.coins })
                    } else {
                        match a.supply.count(card) {
                            None => Some(Refusal::CardNotFoundInSupply),
                            Some(n) => if n == 0 {
                                Some(Refusal::CardSupplyDepleted)
                            } else {
                                None
                            },
                        }
                    }
                },
                (_, GameMove::EndTurn) => None,
                _ => Some(Refusal::InvalidMove),
            }
        }
    }

    /// `b` is `a` after the current player made move `m`, which the rules accept.
    pub open spec fn accepted(a: GameView, b: GameView, m: GameMove) -> bool {
        let i = a.curr as int;
        let p = a.current();
        match (a.phase, m) {
            (GamePhase::ActionPhase, GameMove::PlayCard { card_index }) => {
                let card = p.hand[card_index as int];
                let played = PlayerView {
                    hand: p.hand.remove(card_index as int),
                    played: p.played.push(card),
                    actions: (p.actions - 1) as u32,
                    ..p
                };
                let q = b.players[i];
                &&& GameView::resolved(
                    GameView { players: a.players.update(i, played), ..a },
                    b,
                    card->Action_0.spec_effect()->Some_0,
                )
                &&& b.phase == if q.actions == 0 || !holds_type(q.hand, CardType::Action) {
                    GamePhase::TreasurePhase
                } else {
                    GamePhase::ActionPhase
                }
            },
            (GamePhase::ActionPhase, GameMove::EndActions) => b == GameView {
                players: a.players.update(i, PlayerView { actions: 0, ..p }),
                phase: GamePhase::TreasurePhase,
                ..a
            },
            (GamePhase::TreasurePhase, GameMove::PlayCard { card_index }) => {
                let card = p.hand[card_index as int];
                let q = PlayerView {
                    hand: p.hand.remove(card_index as int),
                    played: p.played.push(card),
                    coins: capped(p.coins + card->Treasure_0.spec_value()),
                    ..p
                };
                b == GameView {
                    players: a.players.update(i, q),
                    phase: if holds_type(q.hand, CardType::Treasure) {
                        GamePhase::TreasurePhase
                    } else {
                        GamePhase::BuyPhase
                    },
                    ..a
                }
            },
            (GamePhase::TreasurePhase, GameMove::EndTreasures) => b == GameView {
                phase: GamePhase::BuyPhase,
                ..a
            },
            (GamePhase::BuyPhase, GameMove::BuyCard { card }) => {
                let q = PlayerView {
                    discard: p.discard.push(card),
                    coins: (p.coins - card.spec_cost()) as u32,
                    buys: (p.buys - 1) as u32,
                    ..p
                };
                let bought = GameView { players: a.players.update(i, q), supply: b.supply, ..a };
                &&& SupplyView::took(a.supply, b.supply, card)
                &&& if q.buys == 0 {
                    GameView::ended_turn(bought, b)
                } else {
                    b == bought
                }
            },
            (_, GameMove::EndTurn) => GameView::ended_turn(a, b),
            _ => false,
        }
    }
}

impl Game {
    /// The player whose turn it is, to change.
    pub fn current_player(&mut self) -> (r: &mut Player)
        requires
            old(self).curr_player_index < old(self).players@.len(),
        ensures
            *r == old(self).players@[old(self).curr_player_index as int],
            final(self).players@ == old(self).players@.update(
                old(self).curr_player_index as int,
                *final(r),
            ),
            final(self).supply == old(self).supply,
            final(self).curr_player_index == old(self).curr_player_index,
            final(self).game_phase == old(self).game_phase,
            final(self).winner == old(self).winner,
    {
        &mut self.players[self.curr_player_index]
    }

    /// The player whose turn it is.
    pub fn current_player_read_only(&self) -> (r: &Player)
        requires
            self.curr_player_index < self.players@.len(),
        ensures
            *r == self.players@[self.curr_player_index as int],
    {
        &self.players[self.curr_player_index]
    }

    /// The first seat among those with the highest score.
    pub fn leading_player(&self) -> (r: usize)
        requires
            self.players@.len() >= 1,
        ensures
            GameView::is_leader(self@.players, r as int),
    {
        let mut best: usize = 0;
        let mut best_score = self.players[0].get_victory_points();
        for i in 1..self.players.len()
            invariant
                best < i <= self.players@.len(),
                best_score == GameView::score(self@.players[best as int]),
                forall|j: int| 0 <= j < i ==> GameView::score(#[trigger] self@.players[j]) <= best_score,
                forall|j: int| 0 <= j < best ==> GameView::score(#[trigger] self@.players[j]) < best_score,
        {
            let score = self.players[i].get_victory_points();
            if score > best_score {
                best = i;
                best_score = score;
            }
        }
        best
    }

    /// Moves from the action phase to the treasure phase.
    pub fn action_to_treasure_phase(&mut self) -> (r: Result<(), GameError>)
        ensures
            old(self).game_phase == GamePhase::ActionPhase ==> (r is Ok),
            old(self).game_phase == GamePhase::ActionPhase ==> final(self)@ == (GameView {
                phase: GamePhase::TreasurePhase,
                ..old(self)@
            }),
            old(self).game_phase != GamePhase::ActionPhase ==> (r matches Err(GameError::InvalidMove(_))),
            old(self).game_phase != GamePhase::ActionPhase ==> final(self)@ == old(self)@,
    {
        if let GamePhase::ActionPhase = self.game_phase {
            self.game_phase = GamePhase::TreasurePhase;
            Ok(())
        } else {
            Err(GameError::InvalidMove("Not in action phase, cannot enter treasure phase".to_owned()))
        }
    }

    /// Moves from the treasure phase to the buy phase.
    pub fn treasure_to_buy_phase(&mut self) -> (r: Result<(), GameError>)
        ensures
            old(self).game_phase == GamePhase::TreasurePhase ==> (r is Ok),
            old(self).game_phase == GamePhase::TreasurePhase ==> final(self)@ == (GameView {
                phase: GamePhase::BuyPhase,
                ..old(self)@
            }),
            old(self).game_phase != GamePhase::TreasurePhase ==> (r matches Err(GameError::InvalidMove(_))),
            old(self).game_phase != GamePhase::TreasurePhase ==> final(self)@ == old(self)@,
    {
        if let GamePhase::TreasurePhase = self.game_phase {
            self.game_phase = GamePhase::BuyPhase;
            Ok(())
        } else {
            Err(GameError::InvalidMove("Not in treasure phase, cannot enter buy phase".to_owned()))
        }
    }

    /// Ends the current player's turn and passes it to the next seat; where
    /// the supply says the game is over, the leader becomes the winner.
    pub fn end_turn(&mut self) -> (r: Result<(), GameError>)
        requires
            old(self)@.wf(),
        ensures
            r is Ok,
            final(self)@.wf(),
            GameView::ended_turn(old(self)@, final(self)@),
    {
        let p = self.curr_player_index;
        self.players[p].end_turn(&mut self.rng);
        assert(self@.players =~= old(self)@.players.update(p as int, self.players@[p as int]@));
        self.curr_player_index = if p < self.players.len() - 1 {
            p + 1
        } else {
            0
        };
        self.game_phase = self.players[self.curr_player_index].get_starting_game_phase();
        assert forall|i: int| 0 <= i < self@.players.len() implies (#[trigger] self@.players[i]).index
            == i && self@.players[i].has_fresh_counters() by {
            assert(old(self)@.players[i].index == i);
        }
        if self.supply.check_game_over() {
            let w = self.leading_player();
            self.winner = Some(w);
        }
        Ok(())
    }
}

/// The refusal of an action card whose effect the game does not offer.
fn unplayable(action: Action) -> (r: GameError)
    ensures
        r is InvalidMove,
{
    match action {
        Action::Gardens => GameError::InvalidMove("Cannot play Gardens as action".to_owned()),
        _ => GameError::InvalidMove("Card effect not implemented".to_owned()),
    }
}

impl Game {
    /// Every player but the current one draws a card.
    fn others_draw_one(&mut self)
        requires
            old(self)@.wf(),
        ensures
            final(self)@.players.len() == old(self)@.players.len(),
            final(self)@.players[old(self)@.curr as int] == old(self)@.players[old(self)@.curr as int],
            forall|j: int|
                0 <= j < old(self)@.players.len() && j != old(self)@.curr ==> #[trigger] PlayerView::drew(
                    old(self)@.players[j],
                    final(self)@.players[j],
                    1,
                ),
            final(self)@.supply == old(self)@.supply,
            final(self)@.curr == old(self)@.curr,
            final(self)@.phase == old(self)@.phase,
            final(self)@.winner == old(self)@.winner,
    {
        let p = self.curr_player_index;
        let n = self.players.len();
        for i in 0..n
            invariant
                n == self.players@.len(),
                p == self.curr_player_index,
                p < n,
                old(self)@.players.len() == n,
                old(self)@.curr == p,
                self@.supply == old(self)@.supply,
                self@.phase == old(self)@.phase,
                self@.winner == old(self)@.winner,
                forall|j: int|
                    0 <= j < i && j != p ==> #[trigger] PlayerView::drew(
                        old(self)@.players[j],
                        self@.players[j],
                        1,
                    ),
                forall|j: int|
                    0 <= j < n && (i <= j || j == p) ==> #[trigger] self@.players[j]
                        == old(self)@.players[j],
        {
            let ghost before = self@.players;
            if i != p {
                self.players[i].draw(1, &mut self.rng);
                assert(self@.players =~= before.update(i as int, self.players@[i as int]@));
            }
            assert forall|j: int|
                0 <= j < i + 1 && j != p implies #[trigger] PlayerView::drew(
                old(self)@.players[j],
                self@.players[j],
                1,
            ) by {
                if j != i {
                    assert(self@.players[j] == before[j]);
                } else {
                    assert(before[j] == old(self)@.players[j]);
                }
            }
        }
    }

    /// Each player after the current one, in turn order, gains a Curse while
    /// the Curse pile lasts.
    fn curse_others(&mut self)
        requires
            old(self)@.wf(),
        ensures
            final(self)@.players.len() == old(self)@.players.len(),
            final(self)@.players[old(self)@.curr as int] == old(self)@.players[old(self)@.curr as int],
            forall|j: int|
                0 <= j < old(self)@.players.len() && j != old(self)@.curr ==> #[trigger] GameView::other_after(old(self)@, final(self)@.players,
                    j,
                    OthersEffect::GainCurse,
                ),
            match old(self)@.supply.count(Card::Curse(Curse::Curse)) {
                Some(c) => SupplyView::took_n(
                    old(self)@.supply,
                    final(self)@.supply,
                    Card::Curse(Curse::Curse),
                    if c < old(self)@.players.len() - 1 {
                        c as nat
                    } else {
                        (old(self)@.players.len() - 1) as nat
                    },
                ),
                None => final(self)@.supply == old(self)@.supply,
            },
            final(self)@.curr == old(self)@.curr,
            final(self)@.phase == old(self)@.phase,
            final(self)@.winner == old(self)@.winner,
    {
        let p = self.curr_player_index;
        let n = self.players.len();
        let curse = Card::Curse(Curse::Curse);
        for k in 1..n
            invariant
                n == self.players@.len(),
                p == self.curr_player_index,
                p < n,
                curse == Card::Curse(Curse::Curse),
                old(self)@.wf(),
                old(self)@.players.len() == n,
                old(self)@.curr == p,
                self@.supply.wf(),
                self@.phase == old(self)@.phase,
                self@.winner == old(self)@.winner,
                match old(self)@.supply.count(curse) {
                    Some(c) => SupplyView::took_n(
                        old(self)@.supply,
                        self@.supply,
                        curse,
                        if c < k - 1 {
                            c as nat
                        } else {
                            (k - 1) as nat
                        },
                    ),
                    None => self@.supply == old(self)@.supply,
                },
                forall|j: int|
                    0 <= j < n && j != p && seats_after(p as int, j, n as int) < k
                        ==> #[trigger] GameView::other_after(old(self)@, self@.players, j, OthersEffect::GainCurse),
                forall|j: int|
                    0 <= j < n && (j == p || seats_after(p as int, j, n as int) >= k)
                        ==> #[trigger] self@.players[j] == old(self)@.players[j],
        {
            let idx = if k < n - p {
                p + k
            } else {
                k - (n - p)
            };
            assert(seats_after(p as int, idx as int, n as int) == k);
            let ghost before = self@;
            assert(before.players[idx as int] == old(self)@.players[idx as int]);
            match self.supply.take_card(curse) {
                Ok(()) => {
                    self.players[idx].add_to_discard(curse);
                    assert(self@.players =~= before.players.update(
                        idx as int,
                        self.players@[idx as int]@,
                    ));
                    proof {
                        let c = old(self)@.supply.count(curse)->Some_0;
                        assert(c >= k);
                        assert(GameView::gets_curse(old(self)@, idx as int));
                    }
                },
                Err(_) => {
                    proof {
                        if old(self)@.supply.count(curse) is Some {
                            let c = old(self)@.supply.count(curse)->Some_0;
                            assert(c < k);
                        }
                        assert(!GameView::gets_curse(old(self)@, idx as int));
                    }
                },
            }
            assert(GameView::other_after(old(self)@, self@.players, idx as int, OthersEffect::GainCurse));
            assert forall|j: int|
                0 <= j < n && j != p && seats_after(p as int, j, n as int) < k + 1
                    implies #[trigger] GameView::other_after(old(self)@, self@.players, j, OthersEffect::GainCurse) by {
                if j != idx {
                    assert(seats_after(p as int, j, n as int) < k);
                    assert(GameView::other_after(old(self)@, before.players, j, OthersEffect::GainCurse));
                    assert(self@.players[j] == before.players[j]);
                }
            }
            assert forall|j: int|
                0 <= j < n && (j == p || seats_after(p as int, j, n as int) >= k + 1)
                    implies #[trigger] self@.players[j] == old(self)@.players[j] by {
                assert(self@.players[j] == before.players[j]);
            }
        }
    }

    /// Resolves the effect of `action` for the current player, who has just
    /// played it; refused, with nothing changed, for a card whose effect the
    /// game does not offer.
    pub fn handle_action(&mut self, action: Action) -> (r: Result<(), GameError>)
        requires
            old(self)@.wf(),
        ensures
            match action.spec_effect() {
                None => (r matches Err(GameError::InvalidMove(_))) && final(self)@ == old(self)@,
                Some(e) => {
                    &&& r is Ok
                    &&& GameView::resolved(old(self)@, final(self)@, e)
                    &&& final(self)@.phase == old(self)@.phase
                    &&& final(self)@.wf()
                },
            },
    {
        let effect = match action.effect() {
            Some(e) => e,
            None => {
                return Err(unplayable(action));
            },
        };
        let p = self.curr_player_index;
        let actions = self.players[p].actions.saturating_add(effect.actions);
        self.players[p].actions = actions;
        let buys = self.players[p].buys.saturating_add(effect.buys);
        self.players[p].buys = buys;
        self.players[p].draw(effect.cards, &mut self.rng);
        assert(self@.players =~= old(self)@.players.update(p as int, self.players@[p as int]@));
        assert forall|i: int| 0 <= i < self@.players.len() implies (#[trigger] self@.players[i]).index
            == i by {
            assert(old(self)@.players[i].index == i);
        }
        let ghost mid = self@;
        match effect.others {
            OthersEffect::Unaffected => {},
            OthersEffect::DrawOne => self.others_draw_one(),
            OthersEffect::GainCurse => self.curse_others(),
        }
        assert forall|j: int|
            0 <= j < self@.players.len() && j != p implies #[trigger] GameView::other_after(old(self)@, self@.players,
            j,
            effect.others,
        ) by {
            assert(mid.players[j] == old(self)@.players[j]);
            match effect.others {
                OthersEffect::Unaffected => {},
                OthersEffect::DrawOne => {
                    assert(PlayerView::drew(mid.players[j], self@.players[j], 1));
                },
                OthersEffect::GainCurse => {
                    assert(GameView::other_after(mid, self@.players, j, OthersEffect::GainCurse));
                },
            }
        }
        assert forall|i: int| 0 <= i < self@.players.len() implies (#[trigger] self@.players[i]).index
            == i && (i != p ==> self@.players[i].has_fresh_counters()) by {
            assert(mid.players[i].index == i);
            if i != p {
                assert(GameView::other_after(old(self)@, self@.players, i, effect.others));
                assert(old(self)@.players[i].has_fresh_counters());
            }
        }
        Ok(())
    }
}

impl Game {
    /// Applies `game_move` by the player in seat `player_index`. A move the
    /// rules refuse changes nothing, and the error says why.
    pub fn accept_move(&mut self, player_index: usize, game_move: GameMove) -> (r: Result<
        (),
        GameError,
    >)
        requires
            old(self)@.wf(),
        ensures
            final(self)@.wf(),
            match GameView::refusal(old(self)@, player_index, game_move) {
                Some(f) => (r matches Err(e) && reports(e, f)) && final(self)@ == old(self)@,
                None => (r is Ok) && GameView::accepted(old(self)@, final(self)@, game_move),
            },
    {
        if self.winner.is_some() {
            return Err(GameError::InvalidMove("The game is over".to_owned()));
        }
        if player_index != self.curr_player_index {
            return Err(GameError::InvalidMove("Wrong player index".to_owned()));
        }
        let p = self.curr_player_index;
        match (self.game_phase, game_move) {
            (GamePhase::ActionPhase, GameMove::PlayCard { card_index }) => {
                let card = match self.players[p].get_card_from_hand(card_index) {
                    Ok(card) => card,
                    Err(e) => {
                        return Err(e);
                    },
                };
                match card {
                    Card::Action(action) => {
                        if self.players[p].actions == 0 {
                            return Err(GameError::InvalidMove("No actions left".to_owned()));
                        }
                        if action.effect().is_none() {
                            return Err(unplayable(action));
                        }
                        let _ = self.players[p].remove_card_from_hand(card_index);
                        let actions = self.players[p].actions - 1;
                        self.players[p].actions = actions;
                        self.players[p].play_card(card);
                        assert(self@.players =~= old(self)@.players.update(
                            p as int,
                            self.players@[p as int]@,
                        ));
                        assert forall|i: int| 0 <= i < self@.players.len() implies (#[trigger] self@.players[i]).index
                            == i && (i != p ==> self@.players[i].has_fresh_counters()) by {
                            assert(old(self)@.players[i].index == i);
                        }
                        let _ = self.handle_action(action);
                        if self.players[p].actions == 0 || !self.players[p].has_action_cards_in_hand() {
                            let _ = self.action_to_treasure_phase();
                        }
                    },
                    Card::Treasure(_) => {
                        return Err(
                            GameError::InvalidMove("Cannot play treasure in action phase".to_owned()),
                        );
                    },
                    Card::Victory(_) => {
                        return Err(GameError::InvalidMove("Cannot play victory card".to_owned()));
                    },
                    Card::Curse(_) => {
                        return Err(GameError::InvalidMove("Cannot play curse".to_owned()));
                    },
                }
            },
            (GamePhase::ActionPhase, GameMove::EndActions) => {
                self.players[p].actions = 0;
                assert(self@.players =~= old(self)@.players.update(
                    p as int,
                    self.players@[p as int]@,
                ));
                let _ = self.action_to_treasure_phase();
            },
            (GamePhase::TreasurePhase, GameMove::PlayCard { card_index }) => {
                let card = match self.players[p].get_card_from_hand(card_index) {
                    Ok(card) => card,
                    Err(e) => {
                        return Err(e);
                    },
                };
                match card {
                    Card::Treasure(treasure) => {
                        let _ = self.players[p].remove_card_from_hand(card_index);
                        let coins = self.players[p].coins.saturating_add(treasure.value());
                        self.players[p].coins = coins;
                        self.players[p].play_card(card);
                        assert(self@.players =~= old(self)@.players.update(
                            p as int,
                            self.players@[p as int]@,
                        ));
                        if !self.players[p].has_treasure_cards_in_hand() {
                            let _ = self.treasure_to_buy_phase();
                        }
                    },
                    Card::Action(_) => {
                        return Err(
                            GameError::InvalidMove(
                                "Cannot play action card in treasure phase".to_owned(),
                            ),
                        );
                    },
                    Card::Victory(_) => {
                        return Err(GameError::InvalidMove("Cannot play victory card".to_owned()));
                    },
                    Card::Curse(_) => {
                        return Err(GameError::InvalidMove("Cannot play curse".to_owned()));
                    },
                }
            },
            (GamePhase::TreasurePhase, GameMove::EndTreasures) => {
                let _ = self.treasure_to_buy_phase();
            },
            (GamePhase::BuyPhase, GameMove::BuyCard { card }) => {
                if self.players[p].buys == 0 {
                    return Err(GameError::InvalidMove("No buys left".to_owned()));
                }
                let cost = card.cost();
                let available = self.players[p].coins;
                if available < cost {
                    return Err(GameError::NotEnoughMoney { required: cost, available });
                }
                match self.supply.take_card(card) {
                    Ok(()) => {},
                    Err(e) => {
                        return Err(e);
                    },
                }
                self.players[p].coins = available - cost;
                let buys = self.players[p].buys - 1;
                self.players[p].buys = buys;
                self.players[p].add_to_discard(card);
                assert(self@.players =~= old(self)@.players.update(
                    p as int,
                    self.players@[p as int]@,
                ));
                if buys == 0 {
                    let _ = self.end_turn();
                }
            },
            (_, GameMove::EndTurn) => {
                let _ = self.end_turn();
            },
            _ => {
                return Err(GameError::InvalidMove("Invalid move for given game phase".to_owned()));
            },
        }
        Ok(())
    }
}

impl Game {
    /// A game for `num_players` players, each with the starting cards, over
    /// the standard supply; the first player is drawn at random.
    pub fn initialise_game(num_players: usize, mut rng: StdRng) -> (r: Game)
        requires
            num_players >= 1,
        ensures
            r@.wf(),
            r@.players.len() == num_players,
            forall|i: int| 0 <= i < num_players ==> (#[trigger] r@.players[i]).is_starting(i as usize),
            r@.supply == standard_supply(),
            r@.phase == starting_phase(r@.current().hand),
            r@.winner is None,
    {
        let supply = Supply::standard();
        let mut players: Vec<Player> = Vec::new();
        for i in 0..num_players
            invariant
                players@.len() == i,
                forall|j: int| 0 <= j < i ==> (#[trigger] players@[j])@.is_starting(j as usize),
        {
            let player = Player::new(i, &mut rng);
            players.push(player);
        }
        let curr_player_index = match choose_index(num_players, &mut rng) {
            Some(i) => i,
            None => 0,
        };
        let game_phase = players[curr_player_index].get_starting_game_phase();
        Game { players, supply, curr_player_index, game_phase, winner: None, rng }
    }
}

/// Buying in the action phase, and any move by a player whose turn it is
/// not, is refused as an invalid move.
pub proof fn lemma_phase_legality(a: GameView, who: usize, m: GameMove)
    ensures
        a.phase == GamePhase::ActionPhase && m is BuyCard ==> GameView::refusal(a, who, m) == Some(
            Refusal::InvalidMove,
        ),
        who != a.curr ==> GameView::refusal(a, who, m) == Some(Refusal::InvalidMove),
{
}

/// Buying from an empty pile is refused as depleted, when the buyer may buy
/// and has the coins.
pub proof fn lemma_empty_pile_refused(a: GameView, card: Card)
    requires
        a.wf(),
        a.winner is None,
        a.phase == GamePhase::BuyPhase,
        a.current().buys > 0,
        a.current().coins >= card.spec_cost(),
        a.supply.count(card) == Some(0u8),
    ensures
        GameView::refusal(a, a.curr, GameMove::BuyCard { card }) == Some(Refusal::CardSupplyDepleted),
{
}

/// After a turn ends, the player whose turn it now is has one action, one
/// buy and no coins; the player who ended it holds a fresh hand of five
/// cards, or all their cards outside the trash where they have fewer.
pub proof fn lemma_turn_reset(a: GameView, b: GameView)
    requires
        a.wf(),
        GameView::ended_turn(a, b),
    ensures
        b.wf(),
        b.current().has_fresh_counters(),
        b.players[a.curr as int].has_fresh_counters(),
        b.players[a.curr as int].hand.len() == num_drawn(
            (a.current().deck.len() + a.current().discard.len() + a.current().hand.len()
                + a.current().played.len()) as nat,
            HAND_SIZE as nat,
        ),
{
    let p = a.curr as int;
    let before = a.players[p];
    let after = b.players[p];
    assert forall|i: int| 0 <= i < b.players.len() implies (#[trigger] b.players[i]).index == i
        && b.players[i].has_fresh_counters() by {
        assert(a.players[i].index == i);
    }
    let discard = before.discard + before.hand + before.played;
    if HAND_SIZE > before.deck.len() {
        let s = choose|s: Seq<Card>|
            s.to_multiset() == discard.to_multiset() && after.deck == left_after(s + before.deck, HAND_SIZE as nat)
                && after.hand == Seq::<Card>::empty() + drawn(s + before.deck, HAND_SIZE as nat);
        assert(s.len() == discard.len()) by {
            assert(s.to_multiset().len() == s.len());
            assert(discard.to_multiset().len() == discard.len());
        }
    }
}

} // verus!
