use vstd::prelude::*;

verus! {

/// Why a move or an operation on the game was refused.
#[derive(Debug, PartialEq, Eq)]
pub enum GameError {
    CardNotFound(String),
    CardNotFoundInSupply(String),
    CardSupplyDepleted(String),
    NotEnoughMoney { required: u32, available: u32 },
    InvalidMove(String),
    FailedToDowncast(String),
    EmptySupply(String),
}

} // verus!
