//! The rules of a deck-building card game: the card catalog, each player's
//! card zones with their draw and reshuffle, the shared supply of cards on
//! sale, and the turn and phase state machine that accepts or refuses moves
//! and resolves the effects of action cards.

pub mod card;
pub mod error;
pub mod game;
pub mod player;
pub mod random;
pub mod supply;

pub use card::{card_name_to_card, Action, Card, CardType, Curse, Treasure, Victory};
pub use error::GameError;
pub use game::{Effect, Game, GameMove, GamePhase, OthersEffect};
pub use player::Player;
pub use supply::Supply;
