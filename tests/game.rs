use dominion::{
    card_name_to_card, Action, Card, Curse, Game, GameError, GameMove, GamePhase, Treasure,
    Victory,
};
use rand::rngs::StdRng;
use rand::SeedableRng;

const COPPER: Card = Card::Treasure(Treasure::Copper);
const SILVER: Card = Card::Treasure(Treasure::Silver);
const ESTATE: Card = Card::Victory(Victory::Estate);
const PROVINCE: Card = Card::Victory(Victory::Province);
const CURSE: Card = Card::Curse(Curse::Curse);

fn new_game(seed: u64) -> Game {
    Game::initialise_game(2, StdRng::seed_from_u64(seed))
}

fn index_of(hand: &[Card], card: Card) -> Option<usize> {
    hand.iter().position(|c| *c == card)
}

fn count_in(cards: &[Card], card: Card) -> usize {
    cards.iter().filter(|c| **c == card).count()
}

fn to_buy_phase(game: &mut Game) {
    let p = game.curr_player_index;
    if game.game_phase == GamePhase::ActionPhase {
        game.accept_move(p, GameMove::EndActions).unwrap();
    }
    if game.game_phase == GamePhase::TreasurePhase {
        game.accept_move(p, GameMove::EndTreasures).unwrap();
    }
    assert_eq!(game.game_phase, GamePhase::BuyPhase);
}

/// A game whose current player holds `hand` in the action phase.
fn game_with_hand(hand: Vec<Card>) -> Game {
    let mut game = new_game(11);
    let p = game.curr_player_index;
    game.players[p].hand = hand;
    game.game_phase = GamePhase::ActionPhase;
    game
}

#[test]
fn new_game_starts_fresh() {
    let game = new_game(5);
    assert_eq!(game.players.len(), 2);
    assert!(game.curr_player_index < 2);
    assert_eq!(game.winner, None);
    for (i, p) in game.players.iter().enumerate() {
        assert_eq!(p.index, i);
        assert_eq!(p.hand.len(), 5);
        assert_eq!((p.actions, p.buys, p.coins), (1, 1, 0));
    }
    // Starting hands hold no action card but at least two Coppers.
    assert_eq!(game.game_phase, GamePhase::TreasurePhase);
}

#[test]
fn first_player_is_drawn_at_random() {
    let mut seen = [false, false];
    for seed in 0..40 {
        let game = new_game(seed);
        assert!(game.curr_player_index < 2);
        seen[game.curr_player_index] = true;
    }
    assert!(seen[0] && seen[1]);
}

#[test]
fn basic_buy_scenario() {
    let mut chosen = None;
    for seed in 0..200 {
        let game = new_game(seed);
        if game.curr_player_index == 0 && count_in(&game.players[0].hand, COPPER) >= 3 {
            chosen = Some(game);
            break;
        }
    }
    let mut game = chosen.unwrap();
    assert_eq!(game.game_phase, GamePhase::TreasurePhase);
    for _ in 0..3 {
        let i = index_of(&game.players[0].hand, COPPER).unwrap();
        game.accept_move(0, GameMove::PlayCard { card_index: i }).unwrap();
    }
    assert_eq!(game.players[0].coins, 3);
    assert_eq!(count_in(&game.players[0].played, COPPER), 3);
    if game.game_phase == GamePhase::TreasurePhase {
        game.accept_move(0, GameMove::EndTreasures).unwrap();
    }
    assert_eq!(game.game_phase, GamePhase::BuyPhase);
    let silver = card_name_to_card("Silver").unwrap();
    assert_eq!(game.accept_move(0, GameMove::BuyCard { card: silver }), Ok(()));
    assert_eq!(game.players[0].coins, 0);
    assert_eq!(game.supply.remaining(SILVER), Some(39));
    assert_eq!(count_in(&game.players[0].discard, SILVER), 1);
    // The only buy was spent: the turn passed on.
    assert_eq!(game.curr_player_index, 1);
}

#[test]
fn game_end_scenario() {
    let mut game = new_game(21);
    let buyer = game.curr_player_index;
    let mut bought = 0;
    while game.winner.is_none() {
        let p = game.curr_player_index;
        if p == buyer {
            to_buy_phase(&mut game);
            game.players[p].coins = 8;
            game.accept_move(p, GameMove::BuyCard { card: PROVINCE }).unwrap();
            bought += 1;
        } else {
            game.accept_move(p, GameMove::EndTurn).unwrap();
        }
        assert!(bought <= 10);
    }
    assert_eq!(bought, 10);
    assert_eq!(game.supply.remaining(PROVINCE), Some(0));
    assert_eq!(game.winner, Some(buyer));
    let best = game.players[buyer].get_victory_points();
    assert_eq!(best, 10 * 6 + 3);
    for p in &game.players {
        assert!(p.get_victory_points() <= best);
    }
    // The game is over: further moves are refused.
    let p = game.curr_player_index;
    assert!(matches!(game.accept_move(p, GameMove::EndTurn), Err(GameError::InvalidMove(_))));
}

#[test]
fn tie_goes_to_first_seat() {
    let mut game = new_game(3);
    assert_eq!(game.players[0].get_victory_points(), game.players[1].get_victory_points());
    assert_eq!(game.leading_player(), 0);
    game.players[1].discard.push(ESTATE);
    assert_eq!(game.leading_player(), 1);
}

#[test]
fn buy_in_action_phase_is_invalid() {
    let mut game = new_game(4);
    let p = game.curr_player_index;
    game.game_phase = GamePhase::ActionPhase;
    game.players[p].coins = 5;
    let r = game.accept_move(p, GameMove::BuyCard { card: SILVER });
    assert!(matches!(r, Err(GameError::InvalidMove(_))));
    assert_eq!(game.supply.remaining(SILVER), Some(40));
    assert_eq!(game.players[p].coins, 5);
}

#[test]
fn move_by_other_player_is_invalid() {
    let mut game = new_game(4);
    let other = 1 - game.curr_player_index;
    let hand = game.players[other].hand.clone();
    let r = game.accept_move(other, GameMove::PlayCard { card_index: 0 });
    assert!(matches!(r, Err(GameError::InvalidMove(_))));
    let r = game.accept_move(other, GameMove::EndTurn);
    assert!(matches!(r, Err(GameError::InvalidMove(_))));
    assert_eq!(game.players[other].hand, hand);
    assert_eq!(game.curr_player_index, 1 - other);
}

#[test]
fn end_turn_gives_next_player_fresh_turn() {
    let mut game = new_game(9);
    let p = game.curr_player_index;
    let i = index_of(&game.players[p].hand, COPPER).unwrap();
    game.accept_move(p, GameMove::PlayCard { card_index: i }).unwrap();
    game.accept_move(p, GameMove::EndTurn).unwrap();
    let q = game.curr_player_index;
    assert_eq!(q, 1 - p);
    assert_eq!((game.players[q].actions, game.players[q].buys, game.players[q].coins), (1, 1, 0));
    assert_eq!(game.players[q].hand.len(), 5);
    assert_eq!((game.players[p].actions, game.players[p].buys, game.players[p].coins), (1, 1, 0));
    assert_eq!(game.players[p].hand.len(), 5);
    assert!(game.players[p].played.is_empty());
    assert_eq!(game.game_phase, GamePhase::TreasurePhase);
}

#[test]
fn buy_from_empty_pile_is_depleted() {
    let mut game = new_game(6);
    for _ in 0..40 {
        game.supply.take_card(SILVER).unwrap();
    }
    to_buy_phase(&mut game);
    let p = game.curr_player_index;
    game.players[p].coins = 5;
    let r = game.accept_move(p, GameMove::BuyCard { card: SILVER });
    assert!(matches!(r, Err(GameError::CardSupplyDepleted(_))));
    assert_eq!(game.players[p].coins, 5);
    assert_eq!(game.players[p].buys, 1);
    assert_eq!(game.supply.remaining(SILVER), Some(0));
}

#[test]
fn buy_without_enough_coins() {
    let mut game = new_game(6);
    to_buy_phase(&mut game);
    let p = game.curr_player_index;
    let r = game.accept_move(p, GameMove::BuyCard { card: PROVINCE });
    assert_eq!(r, Err(GameError::NotEnoughMoney { required: 8, available: 0 }));
}

#[test]
fn buy_card_not_in_supply() {
    let mut game = new_game(6);
    to_buy_phase(&mut game);
    let p = game.curr_player_index;
    game.players[p].coins = 5;
    let r = game.accept_move(p, GameMove::BuyCard { card: Card::Action(Action::Witch) });
    assert!(matches!(r, Err(GameError::CardNotFoundInSupply(_))));
    assert_eq!(game.players[p].coins, 5);
}

#[test]
fn buy_with_spare_buys_keeps_turn() {
    let mut game = new_game(6);
    to_buy_phase(&mut game);
    let p = game.curr_player_index;
    game.players[p].coins = 7;
    game.players[p].buys = 2;
    game.accept_move(p, GameMove::BuyCard { card: SILVER }).unwrap();
    assert_eq!(game.curr_player_index, p);
    assert_eq!(game.players[p].coins, 4);
    assert_eq!(game.players[p].buys, 1);
    assert_eq!(game.players[p].discard, vec![SILVER]);
}

#[test]
fn play_card_bad_index() {
    let mut game = new_game(7);
    let p = game.curr_player_index;
    let r = game.accept_move(p, GameMove::PlayCard { card_index: 5 });
    assert!(matches!(r, Err(GameError::CardNotFound(_))));
}

#[test]
fn play_treasure_adds_coins() {
    let mut game = new_game(7);
    let p = game.curr_player_index;
    let i = index_of(&game.players[p].hand, COPPER).unwrap();
    game.accept_move(p, GameMove::PlayCard { card_index: i }).unwrap();
    assert_eq!(game.players[p].coins, 1);
    assert_eq!(game.players[p].hand.len(), 4);
    assert_eq!(game.players[p].played, vec![COPPER]);
}

#[test]
fn play_victory_card_is_invalid() {
    let mut game = game_with_hand(vec![ESTATE, COPPER]);
    let p = game.curr_player_index;
    game.game_phase = GamePhase::TreasurePhase;
    let r = game.accept_move(p, GameMove::PlayCard { card_index: 0 });
    assert!(matches!(r, Err(GameError::InvalidMove(_))));
    assert_eq!(game.players[p].hand, vec![ESTATE, COPPER]);
}

#[test]
fn last_treasure_moves_to_buy_phase() {
    let mut game = game_with_hand(vec![ESTATE, Card::Treasure(Treasure::Gold)]);
    let p = game.curr_player_index;
    game.game_phase = GamePhase::TreasurePhase;
    game.accept_move(p, GameMove::PlayCard { card_index: 1 }).unwrap();
    assert_eq!(game.players[p].coins, 3);
    assert_eq!(game.game_phase, GamePhase::BuyPhase);
}

#[test]
fn smithy_draws_three() {
    let mut game = game_with_hand(vec![Card::Action(Action::Smithy), COPPER]);
    let p = game.curr_player_index;
    game.accept_move(p, GameMove::PlayCard { card_index: 0 }).unwrap();
    assert_eq!(game.players[p].hand.len(), 4);
    assert_eq!(game.players[p].played, vec![Card::Action(Action::Smithy)]);
    assert_eq!(game.players[p].actions, 0);
    assert_eq!(game.game_phase, GamePhase::TreasurePhase);
}

#[test]
fn village_grants_actions() {
    let mut game =
        game_with_hand(vec![Card::Action(Action::Village), Card::Action(Action::Festival)]);
    let p = game.curr_player_index;
    game.accept_move(p, GameMove::PlayCard { card_index: 0 }).unwrap();
    assert_eq!(game.players[p].actions, 2);
    assert_eq!(game.players[p].hand.len(), 2);
    assert_eq!(game.game_phase, GamePhase::ActionPhase);
    let i = index_of(&game.players[p].hand, Card::Action(Action::Festival)).unwrap();
    game.accept_move(p, GameMove::PlayCard { card_index: i }).unwrap();
    assert_eq!(game.players[p].actions, 3);
    assert_eq!(game.players[p].buys, 2);
}

#[test]
fn market_and_laboratory() {
    let mut game =
        game_with_hand(vec![Card::Action(Action::Market), Card::Action(Action::Laboratory)]);
    let p = game.curr_player_index;
    game.accept_move(p, GameMove::PlayCard { card_index: 0 }).unwrap();
    assert_eq!((game.players[p].actions, game.players[p].buys), (1, 2));
    assert_eq!(game.players[p].hand.len(), 2);
    let i = index_of(&game.players[p].hand, Card::Action(Action::Laboratory)).unwrap();
    game.accept_move(p, GameMove::PlayCard { card_index: i }).unwrap();
    assert_eq!(game.players[p].actions, 1);
    assert_eq!(game.players[p].hand.len(), 3);
}

#[test]
fn moat_draws_two() {
    let mut game = game_with_hand(vec![Card::Action(Action::Moat)]);
    let p = game.curr_player_index;
    game.accept_move(p, GameMove::PlayCard { card_index: 0 }).unwrap();
    assert_eq!(game.players[p].hand.len(), 2);
}

#[test]
fn council_room_makes_others_draw() {
    let mut game = game_with_hand(vec![Card::Action(Action::CouncilRoom)]);
    let p = game.curr_player_index;
    let other = 1 - p;
    game.accept_move(p, GameMove::PlayCard { card_index: 0 }).unwrap();
    assert_eq!(game.players[p].hand.len(), 4);
    assert_eq!(game.players[p].buys, 2);
    assert_eq!(game.players[other].hand.len(), 6);
}

#[test]
fn witch_curses_others_while_curses_last() {
    let mut game = Game::initialise_game(3, StdRng::seed_from_u64(13));
    let p = game.curr_player_index;
    game.players[p].hand = vec![Card::Action(Action::Witch)];
    game.game_phase = GamePhase::ActionPhase;
    for _ in 0..9 {
        game.supply.take_card(CURSE).unwrap();
    }
    game.accept_move(p, GameMove::PlayCard { card_index: 0 }).unwrap();
    assert_eq!(game.players[p].hand.len(), 2);
    let next = (p + 1) % 3;
    let after_next = (p + 2) % 3;
    assert_eq!(game.players[next].discard, vec![CURSE]);
    assert!(game.players[after_next].discard.is_empty());
    assert!(game.players[p].discard.is_empty());
    assert_eq!(game.supply.remaining(CURSE), Some(0));
}

#[test]
fn witch_with_curses_left_curses_everyone_else() {
    let mut game = game_with_hand(vec![Card::Action(Action::Witch)]);
    let p = game.curr_player_index;
    game.accept_move(p, GameMove::PlayCard { card_index: 0 }).unwrap();
    assert_eq!(game.players[1 - p].discard, vec![CURSE]);
    assert_eq!(game.supply.remaining(CURSE), Some(9));
}

#[test]
fn unimplemented_action_is_refused_unchanged() {
    let mut game = game_with_hand(vec![Card::Action(Action::Chapel), COPPER]);
    let p = game.curr_player_index;
    let r = game.accept_move(p, GameMove::PlayCard { card_index: 0 });
    assert!(matches!(r, Err(GameError::InvalidMove(_))));
    assert_eq!(game.players[p].hand, vec![Card::Action(Action::Chapel), COPPER]);
    assert_eq!(game.players[p].actions, 1);
    assert!(game.players[p].played.is_empty());
    let mut game = game_with_hand(vec![Card::Action(Action::Gardens)]);
    let r = game.accept_move(game.curr_player_index, GameMove::PlayCard { card_index: 0 });
    assert!(matches!(r, Err(GameError::InvalidMove(_))));
}

#[test]
fn no_actions_left_is_refused() {
    let mut game = game_with_hand(vec![Card::Action(Action::Smithy)]);
    let p = game.curr_player_index;
    game.players[p].actions = 0;
    let r = game.accept_move(p, GameMove::PlayCard { card_index: 0 });
    assert!(matches!(r, Err(GameError::InvalidMove(_))));
    assert_eq!(game.players[p].hand, vec![Card::Action(Action::Smithy)]);
}

#[test]
fn end_actions_moves_to_treasure_phase() {
    let mut game = game_with_hand(vec![Card::Action(Action::Smithy), COPPER]);
    let p = game.curr_player_index;
    game.accept_move(p, GameMove::EndActions).unwrap();
    assert_eq!(game.players[p].actions, 0);
    assert_eq!(game.game_phase, GamePhase::TreasurePhase);
    let r = game.accept_move(p, GameMove::PlayCard { card_index: 0 });
    assert!(matches!(r, Err(GameError::InvalidMove(_))));
}

#[test]
fn discard_move_and_wrong_phase_moves_are_invalid() {
    let mut game = new_game(8);
    let p = game.curr_player_index;
    let r = game.accept_move(p, GameMove::DiscardCard { card: COPPER });
    assert!(matches!(r, Err(GameError::InvalidMove(_))));
    let r = game.accept_move(p, GameMove::EndActions);
    assert!(matches!(r, Err(GameError::InvalidMove(_))));
    to_buy_phase(&mut game);
    let r = game.accept_move(p, GameMove::EndTreasures);
    assert!(matches!(r, Err(GameError::InvalidMove(_))));
}

#[test]
fn phase_transitions_refuse_wrong_phase() {
    let mut game = new_game(8);
    game.game_phase = GamePhase::BuyPhase;
    assert!(matches!(game.action_to_treasure_phase(), Err(GameError::InvalidMove(_))));
    assert!(matches!(game.treasure_to_buy_phase(), Err(GameError::InvalidMove(_))));
    game.game_phase = GamePhase::ActionPhase;
    assert!(game.action_to_treasure_phase().is_ok());
    assert!(game.treasure_to_buy_phase().is_ok());
    assert_eq!(game.game_phase, GamePhase::BuyPhase);
}

#[test]
fn current_player_accessors() {
    let mut game = new_game(10);
    let p = game.curr_player_index;
    assert_eq!(game.current_player_read_only().index, p);
    game.current_player().coins = 4;
    assert_eq!(game.players[p].coins, 4);
}
