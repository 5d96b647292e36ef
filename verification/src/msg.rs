use vstd::prelude::*;

verus! {

/// The message that sets up a new contract instance; it carries nothing.
pub struct InitMsg {}

/// A move of rock-paper-scissors.
#[derive(Clone, Copy, Debug, PartialEq, Eq, Structural)]
pub enum Move {
    Rock,
    Paper,
    Scissors,
}

/// The requests that change the contract's state.
///
/// Addresses are the human-readable form, amounts are in the smallest unit
/// of the coin, and `msg` holds the encoded message that a token contract
/// forwards with a transfer.
pub enum HandleMsg {
    Play { move1: Move, room_id: u64 },
    CreateRoom { room_title: String },
    Register { reg_addr: String, reg_hash: String },
    Receive { sender: String, from: String, amount: u128, memo: Option<String>, msg: Vec<u8> },
}

/// The message that a token contract forwards with a stake: which room the
/// sender plays in and with which move.
pub struct PlayMsg {
    pub move1: Move,
    pub room_id: u64,
}

/// The read-only requests.
pub enum QueryMsg {
    Winner { room_id: u64 },
    Amount { room_id: u64 },
    Rooms { page_num: u64, num_of_items: u64 },
}

pub struct CountResponse {
    pub count: i32,
}

/// The winner of a room: its address, or `No winner`.
pub struct WinnerResponse {
    pub winner: String,
}

/// The pot of a room.
pub struct AmountResponse {
    pub amount: u128,
}

/// The titles of one page of rooms.
pub struct RoomsResponse {
    pub rooms: Vec<String>,
}

/// The messages this contract sends to a SNIP-20 token contract.
pub enum Snip20Msg {
    RegisterReceive { code_hash: String, padding: Option<String> },
    Transfer { recipient: String, amount: u128, padding: Option<String> },
}

impl Snip20Msg {
    /// Asks the token contract to notify this contract, whose code hash is
    /// `code_hash`, of the tokens sent to it.
    pub fn register_receive(code_hash: String) -> (m: Self)
        ensures
            m matches Snip20Msg::RegisterReceive { code_hash: c, padding: None } && c@ == code_hash@,
    {
        Snip20Msg::RegisterReceive { code_hash, padding: None }
    }

    /// Asks the token contract to move `amount` tokens to `recipient`.
    pub fn transfer(recipient: String, amount: u128) -> (m: Self)
        ensures
            m matches Snip20Msg::Transfer { recipient: r, amount: a, padding: None } && r@
                == recipient@ && a == amount,
    {
        Snip20Msg::Transfer { recipient, amount, padding: None }
    }
}

/// An amount of one coin.
pub struct Coin {
    pub denom: String,
    pub amount: u128,
}

/// The spec form of a coin.
pub struct CoinView {
    pub denom: Seq<char>,
    pub amount: u128,
}

impl View for Coin {
    type V = CoinView;

    open spec fn view(&self) -> CoinView {
        CoinView { denom: self.denom@, amount: self.amount }
    }
}

pub open spec fn coins_view(coins: Seq<Coin>) -> Seq<CoinView> {
    coins.map_values(|c: Coin| c@)
}

/// A message that the contract asks the chain to send on its behalf.
pub enum CosmosMsg {
    /// Move native coins from `from_address` to `to_address`.
    BankSend { from_address: String, to_address: String, amount: Vec<Coin> },
    /// Execute `msg` on the contract at `contract_addr`, whose code hash is
    /// `callback_code_hash`, sending `send` along.
    WasmExecute {
        contract_addr: String,
        callback_code_hash: String,
        msg: Snip20Msg,
        send: Vec<Coin>,
    },
}

/// The answer to a request that changes state: the messages to send.
pub struct HandleResponse {
    pub messages: Vec<CosmosMsg>,
}

/// The answer to the set-up message.
pub struct InitResponse {
    pub messages: Vec<CosmosMsg>,
}

} // verus!
