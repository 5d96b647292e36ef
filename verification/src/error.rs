use vstd::prelude::*;

verus! {

/// The ways in which a request to the contract is refused.
#[derive(Clone, Copy, Debug, PartialEq, Eq, Structural)]
pub enum ContractError {
    /// A play came with no `uscrt` stake.
    NotEnoughCoins,
    /// The room already has its two players.
    GameAlreadyFinished,
    /// The second player is the same account as the first.
    PlayTwice,
    /// No room with the requested id exists.
    RoomNotFound,
    /// The list of rooms has never been created.
    RoomsNotCreated,
    /// The token configuration has not been stored yet.
    ConfigNotFound,
    /// The play would end the game in a draw, which leaves no winner to pay.
    Draw,
    /// The chain could not put the player's address in canonical form.
    InvalidAddress,
}

impl ContractError {
    /// The message that the contract reports for this error.
    pub fn message(&self) -> (m: String)
        ensures
            m@ == self.spec_message(),
    {
        match self {
            ContractError::NotEnoughCoins => "Not enough coins".to_owned(),
            ContractError::GameAlreadyFinished => "Game already finished".to_owned(),
            ContractError::PlayTwice => "You can't play twice".to_owned(),
            ContractError::RoomNotFound => "Room not found".to_owned(),
            ContractError::RoomsNotCreated => "Rooms not created".to_owned(),
            ContractError::ConfigNotFound => "rock::state::SnipState not found".to_owned(),
            ContractError::Draw => "Game ended in a draw: no winner to pay".to_owned(),
            ContractError::InvalidAddress => "Invalid address".to_owned(),
        }
    }

    pub open spec fn spec_message(&self) -> Seq<char> {
        match self {
            ContractError::NotEnoughCoins => "Not enough coins"@,
            ContractError::GameAlreadyFinished => "Game already finished"@,
            ContractError::PlayTwice => "You can't play twice"@,
            ContractError::RoomNotFound => "Room not found"@,
            ContractError::RoomsNotCreated => "Rooms not created"@,
            ContractError::ConfigNotFound => "rock::state::SnipState not found"@,
            ContractError::Draw => "Game ended in a draw: no winner to pay"@,
            ContractError::InvalidAddress => "Invalid address"@,
        }
    }
}

} // verus!
