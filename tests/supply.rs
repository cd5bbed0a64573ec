use dominion::{Action, Card, GameError, Supply, Treasure, Victory};

const SILVER: Card = Card::Treasure(Treasure::Silver);
const PROVINCE: Card = Card::Victory(Victory::Province);

fn remaining(s: &Supply, card: Card) -> Option<u8> {
    s.remaining(card)
}

#[test]
fn standard_supply_counts() {
    let s = Supply::standard();
    assert_eq!(remaining(&s, Card::Treasure(Treasure::Copper)), Some(60));
    assert_eq!(remaining(&s, SILVER), Some(40));
    assert_eq!(remaining(&s, Card::Treasure(Treasure::Gold)), Some(30));
    assert_eq!(remaining(&s, PROVINCE), Some(10));
    assert_eq!(remaining(&s, Card::Action(Action::Laboratory)), Some(10));
    assert_eq!(remaining(&s, Card::Action(Action::Witch)), None);
    assert_eq!(s.num_empty_supply_piles(), 0);
    assert!(!s.check_game_over());
}

#[test]
fn take_card_decrements_one_pile() {
    let mut s = Supply::standard();
    assert!(s.take_card(SILVER).is_ok());
    assert_eq!(remaining(&s, SILVER), Some(39));
    assert_eq!(remaining(&s, Card::Treasure(Treasure::Gold)), Some(30));
}

#[test]
fn take_card_from_empty_pile_is_depleted() {
    let mut s = Supply::standard();
    for _ in 0..10 {
        assert!(s.take_card(Card::Action(Action::Moat)).is_ok());
    }
    assert_eq!(remaining(&s, Card::Action(Action::Moat)), Some(0));
    assert!(matches!(
        s.take_card(Card::Action(Action::Moat)),
        Err(GameError::CardSupplyDepleted(_))
    ));
    assert_eq!(remaining(&s, Card::Action(Action::Moat)), Some(0));
}

#[test]
fn take_card_not_in_supply() {
    let mut s = Supply::standard();
    assert!(matches!(
        s.take_card(Card::Action(Action::Witch)),
        Err(GameError::CardNotFoundInSupply(_))
    ));
}

#[test]
fn take_from_supply_pile_directly() {
    let mut pile = vec![(SILVER, 1u8), (PROVINCE, 2u8)];
    assert!(Supply::take_from_supply_pile(&mut pile, PROVINCE).is_ok());
    assert_eq!(pile, vec![(SILVER, 1u8), (PROVINCE, 1u8)]);
    assert!(Supply::take_from_supply_pile(&mut pile, SILVER).is_ok());
    assert!(matches!(
        Supply::take_from_supply_pile(&mut pile, SILVER),
        Err(GameError::CardSupplyDepleted(_))
    ));
    assert!(matches!(
        Supply::take_from_supply_pile(&mut pile, Card::Treasure(Treasure::Gold)),
        Err(GameError::CardNotFoundInSupply(_))
    ));
}

#[test]
fn game_over_when_province_pile_empty() {
    let mut s = Supply::standard();
    for _ in 0..10 {
        assert!(s.take_card(PROVINCE).is_ok());
    }
    assert_eq!(s.num_empty_supply_piles(), 1);
    assert!(s.check_game_over());
}

#[test]
fn game_over_when_three_piles_empty() {
    let mut s = Supply::standard();
    for card in [Action::Moat, Action::Village] {
        for _ in 0..10 {
            assert!(s.take_card(Card::Action(card)).is_ok());
        }
    }
    assert_eq!(s.num_empty_supply_piles(), 2);
    assert!(!s.check_game_over());
    for _ in 0..10 {
        assert!(s.take_card(Card::Action(Action::Smithy)).is_ok());
    }
    assert_eq!(s.num_empty_supply_piles(), 3);
    assert!(s.check_game_over());
}
