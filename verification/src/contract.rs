use vstd::prelude::*;

use crate::error::ContractError;
use crate::msg::{
    AmountResponse, Coin, CoinView, CosmosMsg, HandleResponse, InitMsg, InitResponse, Move,
    PlayMsg, QueryMsg, RoomsResponse, Snip20Msg, WinnerResponse, coins_view,
};
use crate::state::{
    Player, PlayerView, Room, RoomView, SnipState, SnipStateView, State, StateView, lookup_room,
    open_rooms, opt_bytes_view, page_args_ok, page_titles, play_accepted, spec_create_room,
    copy_bytes, spec_play, spec_read_room, spec_update_room, state_fits, stored_rooms, titles_view,
};

verus! {

// ---------------------------------------------------------------------------
// Specifications

/// The native coin in which stakes are paid.
pub open spec fn native_denom() -> Seq<char> {
    "uscrt"@
}

/// The sum of the amounts of the native coin among `coins`; other coins
/// count for nothing.
pub open spec fn uscrt_total(coins: Seq<CoinView>) -> nat
    decreases coins.len(),
{
    if coins.len() == 0 {
        0
    } else {
        uscrt_total(coins.drop_last()) + if coins.last().denom == native_denom() {
            coins.last().amount as nat
        } else {
            0nat
        }
    }
}

/// The configuration stored by the set-up message: no token yet.
pub open spec fn empty_config() -> SnipStateView {
    SnipStateView { addr: Seq::empty(), hash: Seq::empty() }
}

/// The state after the set-up message.
pub open spec fn spec_init(s: StateView) -> StateView {
    StateView { total: Some(0), config: Some(empty_config()), ..s }
}

/// The state after the token contract at `addr` with code hash `hash` is
/// registered.
pub open spec fn spec_register(s: StateView, addr: Seq<char>, hash: Seq<char>) -> StateView {
    StateView { config: Some(SnipStateView { addr, hash }), ..s }
}

/// What a finished room pays: its whole pot, to its winner. Nothing while
/// the game runs.
pub open spec fn spec_payout(room: RoomView) -> Option<(Seq<u8>, u128)> {
    match room.winner {
        Some(w) => if room.is_finished {
            Some((w, room.amount))
        } else {
            None
        },
        None => None,
    }
}

/// What a play of `move1` with stake `amount` in room `room_id` does, by the
/// account `sender` in canonical form (`None` when the chain could not
/// convert the address): the list of rooms is opened, the room is looked
/// up, the address is checked, the room is played and written back. The
/// result is the room after the play, or why the play was refused. A
/// refused play changes no room, and a play that would end the game in a
/// draw, which leaves nobody to pay, is refused with no change at all.
pub open spec fn spec_play_in(
    s: StateView,
    room_id: u64,
    move1: Move,
    sender: Option<Seq<u8>>,
    amount: u128,
) -> (StateView, Result<RoomView, ContractError>) {
    let opened = open_rooms(s);
    match lookup_room(stored_rooms(s), room_id) {
        Err(e) => (opened, Err(e)),
        Ok(room) => match sender {
            None => (opened, Err(ContractError::InvalidAddress)),
            Some(address) => match spec_play(room, PlayerView { move1, address }, amount) {
                Err(e) => (opened, Err(e)),
                Ok(played) => if played.is_finished && played.winner is None {
                    (s, Err(ContractError::Draw))
                } else {
                    (spec_update_room(opened, room_id, played), Ok(played))
                },
            },
        },
    }
}

/// The pot of the room does not overflow when the play is accepted.
pub open spec fn play_fits(
    s: StateView,
    room_id: u64,
    move1: Move,
    sender: Option<Seq<u8>>,
    amount: u128,
) -> bool {
    match (lookup_room(stored_rooms(s), room_id), sender) {
        (Ok(room), Some(address)) => play_accepted(room, PlayerView { move1, address }, amount)
            ==> room.amount + amount <= u128::MAX,
        _ => true,
    }
}

/// What a finished game pays out: the whole pot, to the winner (in
/// canonical form).
pub struct Payout {
    pub winner: Vec<u8>,
    pub amount: u128,
}

pub open spec fn payout_view(p: Option<Payout>) -> Option<(Seq<u8>, u128)> {
    match p {
        Some(p) => Some((p.winner@, p.amount)),
        None => None,
    }
}

/// The result of a play is the payout that the played room owes, or the
/// expected refusal.
pub open spec fn play_result(
    r: Result<Option<Payout>, ContractError>,
    expected: Result<RoomView, ContractError>,
) -> bool {
    match expected {
        Ok(room) => r matches Ok(p) && payout_view(p) == spec_payout(room),
        Err(e) => r == Err::<Option<Payout>, ContractError>(e),
    }
}

/// `m` pays `amount` of the native coin from `from` to `to`.
pub open spec fn bank_payment(m: CosmosMsg, from: Seq<char>, to: Seq<char>, amount: u128) -> bool {
    match m {
        CosmosMsg::BankSend { from_address, to_address, amount: coins } => from_address@ == from
            && to_address@ == to && coins@.len() == 1 && coins@[0]@ == (CoinView {
            denom: native_denom(),
            amount,
        }),
        _ => false,
    }
}

/// `m` asks the token contract at `contract` (code hash `hash`) to move
/// `amount` tokens to `recipient`, sending no coins along.
pub open spec fn transfer_call(
    m: CosmosMsg,
    contract: Seq<char>,
    hash: Seq<char>,
    recipient: Seq<char>,
    amount: u128,
) -> bool {
    match m {
        CosmosMsg::WasmExecute {
            contract_addr,
            callback_code_hash,
            msg: Snip20Msg::Transfer { recipient: to, amount: a, padding: None },
            send,
        } => contract_addr@ == contract && callback_code_hash@ == hash && send@.len() == 0 && to@
            == recipient && a == amount,
        _ => false,
    }
}

/// `m` asks the token contract at `contract` (code hash `hash`) to notify
/// the contract whose code hash is `code_hash` of what it receives.
pub open spec fn register_call(
    m: CosmosMsg,
    contract: Seq<char>,
    hash: Seq<char>,
    code_hash: Seq<char>,
) -> bool {
    match m {
        CosmosMsg::WasmExecute {
            contract_addr,
            callback_code_hash,
            msg: Snip20Msg::RegisterReceive { code_hash: c, padding: None },
            send,
        } => contract_addr@ == contract && callback_code_hash@ == hash && send@.len() == 0 && c@
            == code_hash,
        _ => false,
    }
}

// ---------------------------------------------------------------------------
// Proofs about the stake total

proof fn lemma_uscrt_total_prefix(coins: Seq<CoinView>, i: int)
    requires
        0 <= i <= coins.len(),
    ensures
        uscrt_total(coins.take(i)) <= uscrt_total(coins),
    decreases coins.len(),
{
    if i == coins.len() {
        assert(coins.take(i) =~= coins);
    } else {
        lemma_uscrt_total_prefix(coins.drop_last(), i);
        assert(coins.drop_last().take(i) =~= coins.take(i));
    }
}

// ---------------------------------------------------------------------------
// Set-up and requests

/// Sets up the contract: the room counter starts at 0 and no token is
/// configured yet. Existing rooms are left alone.
pub fn init(state: &mut State, msg: InitMsg) -> (r: InitResponse)
    ensures
        final(state)@ == spec_init(old(state)@),
        r.messages@.len() == 0,
{
    state.total = Some(0);
    state.config = Some(SnipState { addr: String::new(), hash: String::new() });
    InitResponse { messages: Vec::new() }
}

/// The sum of the native-coin amounts among `coins`.
pub fn calculate_amount(coins: &Vec<Coin>) -> (total: u128)
    requires
        uscrt_total(coins_view(coins@)) <= u128::MAX,
    ensures
        total == uscrt_total(coins_view(coins@)),
{
    let ghost cv = coins_view(coins@);
    let denom = "uscrt".to_owned();
    let mut total: u128 = 0;
    let mut i: usize = 0;
    while i < coins.len()
        invariant
            i <= coins.len(),
            cv == coins_view(coins@),
            denom@ == native_denom(),
            total == uscrt_total(cv.take(i as int)),
            uscrt_total(cv) <= u128::MAX,
        decreases coins.len() - i,
    {
        proof {
            assert(cv.take(i + 1).drop_last() =~= cv.take(i as int));
            assert(cv.take(i + 1).last() == coins@[i as int]@);
            lemma_uscrt_total_prefix(cv, i + 1);
        }
        if coins[i].denom == denom {
            total = total + coins[i].amount;
        }
        i += 1;
    }
    assert(cv.take(coins.len() as int) =~= cv);
    total
}

/// The response that pays `total_amount` of the native coin from the
/// contract at `from_address` to `to_address`.
pub fn send_tokens(from_address: String, to_address: String, total_amount: u128) -> (r:
    HandleResponse)
    ensures
        r.messages@.len() == 1,
        bank_payment(r.messages@[0], from_address@, to_address@, total_amount),
        r.messages@[0] matches CosmosMsg::BankSend { from_address: f, to_address: t, amount: c }
            && f@ == from_address@ && t@ == to_address@ && c@.len() == 1 && c@[0].denom@
            == "uscrt"@ && c@[0].amount == total_amount,
{
    let mut amount: Vec<Coin> = Vec::new();
    amount.push(Coin { amount: total_amount, denom: "uscrt".to_owned() });
    let mut messages: Vec<CosmosMsg> = Vec::new();
    messages.push(CosmosMsg::BankSend { from_address, to_address, amount });
    HandleResponse { messages }
}

/// Creates a room titled `room_title`.
pub fn try_create(state: &mut State, room_title: String) -> (r: HandleResponse)
    requires
        old(state).total is Some,
        old(state).total->0 < u64::MAX,
        stored_rooms(old(state)@).len() < u32::MAX,
    ensures
        final(state)@ == spec_create_room(old(state)@, room_title@),
        r.messages@.len() == 0,
{
    Room::create_room(state, room_title);
    HandleResponse { messages: Vec::new() }
}

/// Plays `player` in `room`, the room found under `room_id` in the opened
/// list, and writes the played room back, unless the play is refused or
/// would end in a draw.
fn play_and_store(state: &mut State, room_id: u64, room: Room, player: Player, amount: u128) -> (r:
    Result<Option<Payout>, ContractError>)
    requires
        old(state)@.rooms is Some,
        state_fits(old(state)@),
        lookup_room(stored_rooms(old(state)@), room_id) == Ok::<RoomView, ContractError>(room@),
        play_accepted(room@, player@, amount) ==> room.amount + amount <= u128::MAX,
    ensures
        match spec_play(room@, player@, amount) {
            Err(e) => final(state)@ == old(state)@ && r == Err::<Option<Payout>, ContractError>(e),
            Ok(played) => if played.is_finished && played.winner is None {
                final(state)@ == old(state)@ && r == Err::<Option<Payout>, ContractError>(
                    ContractError::Draw,
                )
            } else {
                final(state)@ == spec_update_room(old(state)@, room_id, played) && (r matches Ok(p)
                    && payout_view(p) == spec_payout(played))
            },
        },
{
    let mut room = room;
    match room.play(player, amount) {
        Ok(()) => {},
        Err(e) => {
            return Err(e);
        },
    }
    let payout = if room.is_finished {
        match &room.winner {
            None => {
                return Err(ContractError::Draw);
            },
            Some(w) => Some(Payout { winner: copy_bytes(w), amount: room.amount }),
        }
    } else {
        None
    };
    // The room was found under `room_id`, so writing it back succeeds.
    let _ = Room::update_room(state, room_id, &room);
    Ok(payout)
}

/// The account `sender` (in canonical form; `None` when the chain could not
/// convert it) plays `move1` in room `room_id` with the native coins among
/// `sent_funds` as stake. The result is what the play pays out: the whole
/// pot to the winner when it ends the game, nothing otherwise.
pub fn try_play(
    state: &mut State,
    sender: Option<Vec<u8>>,
    sent_funds: &Vec<Coin>,
    move1: Move,
    room_id: u64,
) -> (r: Result<Option<Payout>, ContractError>)
    requires
        state_fits(old(state)@),
        lookup_room(stored_rooms(old(state)@), room_id) is Ok && sender is Some ==> uscrt_total(
            coins_view(sent_funds@),
        ) <= u128::MAX,
        play_fits(
            old(state)@,
            room_id,
            move1,
            opt_bytes_view(sender),
            uscrt_total(coins_view(sent_funds@)) as u128,
        ),
    ensures
        ({
            let (s, res) = spec_play_in(
                old(state)@,
                room_id,
                move1,
                opt_bytes_view(sender),
                uscrt_total(coins_view(sent_funds@)) as u128,
            );
            final(state)@ == s && play_result(r, res)
        }),
{
    let room = match Room::get_room(state, room_id) {
        Ok(room) => room,
        Err(e) => {
            return Err(e);
        },
    };
    let address = match sender {
        Some(address) => address,
        None => {
            return Err(ContractError::InvalidAddress);
        },
    };
    let amount = calculate_amount(sent_funds);
    play_and_store(state, room_id, room, Player { move1, address }, amount)
}

/// The response to a play: when the play ended the game, one payment of
/// the pot in the native coin from the contract at `contract_address` to
/// the winner (`payout` carries the winner's address as reported and the
/// pot); otherwise no message.
pub fn play_response(contract_address: String, payout: Option<(String, u128)>) -> (r:
    HandleResponse)
    ensures
        match payout {
            None => r.messages@.len() == 0,
            Some((to, pot)) => r.messages@.len() == 1 && bank_payment(
                r.messages@[0],
                contract_address@,
                to@,
                pot,
            ),
        },
{
    match payout {
        None => HandleResponse { messages: Vec::new() },
        Some((to, pot)) => send_tokens(contract_address, to, pot),
    }
}

/// The token contract forwarded a stake of `amount` tokens from the account
/// `from` (in canonical form; `None` when the chain could not convert it),
/// with `msg` naming the room and the move. The result is what the play
/// pays out: the whole pot to the winner when it ends the game, nothing
/// otherwise.
pub fn try_receive(state: &mut State, from: Option<Vec<u8>>, amount: u128, msg: PlayMsg) -> (r:
    Result<Option<Payout>, ContractError>)
    requires
        state_fits(old(state)@),
        play_fits(old(state)@, msg.room_id, msg.move1, opt_bytes_view(from), amount),
    ensures
        ({
            let (s, res) = spec_play_in(
                old(state)@,
                msg.room_id,
                msg.move1,
                opt_bytes_view(from),
                amount,
            );
            final(state)@ == s && play_result(r, res)
        }),
{
    let room = match Room::get_room(state, msg.room_id) {
        Ok(room) => room,
        Err(e) => {
            return Err(e);
        },
    };
    let address = match from {
        Some(address) => address,
        None => {
            return Err(ContractError::InvalidAddress);
        },
    };
    play_and_store(state, msg.room_id, room, Player { move1: msg.move1, address }, amount)
}

/// The response to a token-paid play: when the play ended the game, one
/// transfer of the pot through the configured token contract to the winner
/// (`payout` carries the winner's address as reported and the pot);
/// otherwise no message. A payout is refused when no token is configured.
pub fn receive_response(state: &State, payout: Option<(String, u128)>) -> (r: Result<
    HandleResponse,
    ContractError,
>)
    ensures
        match payout {
            None => r matches Ok(resp) && resp.messages@.len() == 0,
            Some((to, pot)) => match state@.config {
                None => r matches Err(e) && e == ContractError::ConfigNotFound,
                Some(token) => r matches Ok(resp) && resp.messages@.len() == 1 && transfer_call(
                    resp.messages@[0],
                    token.addr,
                    token.hash,
                    to@,
                    pot,
                ),
            },
        },
{
    match payout {
        None => Ok(HandleResponse { messages: Vec::new() }),
        Some((to, pot)) => snip20_payout(state, to, pot),
    }
}

/// The response that pays `amount` tokens to `recipient` through the
/// configured token contract; refused when no token is configured.
pub fn snip20_payout(state: &State, recipient: String, amount: u128) -> (r: Result<
    HandleResponse,
    ContractError,
>)
    ensures
        match state@.config {
            None => r matches Err(e) && e == ContractError::ConfigNotFound,
            Some(token) => r matches Ok(resp) && resp.messages@.len() == 1 && transfer_call(
                resp.messages@[0],
                token.addr,
                token.hash,
                recipient@,
                amount,
            ),
        },
{
    let msg = Snip20Msg::transfer(recipient, amount);
    let token = match &state.config {
        None => {
            return Err(ContractError::ConfigNotFound);
        },
        Some(token) => token,
    };
    let mut messages: Vec<CosmosMsg> = Vec::new();
    messages.push(
        CosmosMsg::WasmExecute {
            contract_addr: token.addr.clone(),
            msg,
            send: Vec::new(),
            callback_code_hash: token.hash.clone(),
        },
    );
    Ok(HandleResponse { messages })
}

/// Registers the token contract at `reg_addr` with code hash `reg_hash`:
/// the configuration is replaced, and the token contract is asked to notify
/// this contract (code hash `contract_code_hash`) of the tokens it receives.
/// Refused, changing nothing, when the configuration was never set up.
pub fn try_register(
    state: &mut State,
    contract_code_hash: String,
    reg_addr: String,
    reg_hash: String,
) -> (r: Result<HandleResponse, ContractError>)
    ensures
        match old(state)@.config {
            None => final(state)@ == old(state)@ && (r matches Err(e) && e
                == ContractError::ConfigNotFound),
            Some(_) => final(state)@ == spec_register(old(state)@, reg_addr@, reg_hash@) && (r matches Ok(resp) && resp.messages@.len() == 1 && register_call(
                resp.messages@[0],
                reg_addr@,
                reg_hash@,
                contract_code_hash@,
            )),
        },
        old(state).config is Some ==> (final(state).config matches Some(c) && c.addr@
            == reg_addr@ && c.hash@ == reg_hash@),
        final(state).total == old(state).total,
{
    if state.config.is_none() {
        return Err(ContractError::ConfigNotFound);
    }
    state.config = Some(SnipState { addr: reg_addr.clone(), hash: reg_hash.clone() });
    let msg = Snip20Msg::register_receive(contract_code_hash);
    let mut messages: Vec<CosmosMsg> = Vec::new();
    messages.push(
        CosmosMsg::WasmExecute {
            contract_addr: reg_addr,
            callback_code_hash: reg_hash,
            msg,
            send: Vec::new(),
        },
    );
    Ok(HandleResponse { messages })
}

// ---------------------------------------------------------------------------
// Queries

/// The answer to a query, before the winner's address is put in its
/// human-readable form (see [`winner_response`]).
pub enum QueryAnswer {
    /// The winner of the room, in canonical form; none while the game runs
    /// or after a draw.
    Winner(Option<Vec<u8>>),
    Amount(AmountResponse),
    Rooms(RoomsResponse),
}

/// The winner of room `room_id`, in canonical form.
pub fn query_winner(state: &State, room_id: u64) -> (r: Result<Option<Vec<u8>>, ContractError>)
    ensures
        match spec_read_room(state@, room_id) {
            Ok(room) => r matches Ok(w) && opt_bytes_view(w) == room.winner,
            Err(e) => r matches Err(e2) && e2 == e,
        },
{
    match Room::read_room(state, room_id) {
        Ok(room) => Ok(room.winner),
        Err(e) => Err(e),
    }
}

/// The winner's address as reported, or `No winner`.
pub fn winner_response(winner: Option<String>) -> (r: WinnerResponse)
    ensures
        r.winner@ == match winner {
            Some(w) => w@,
            None => "No winner"@,
        },
{
    match winner {
        Some(w) => WinnerResponse { winner: w },
        None => WinnerResponse { winner: "No winner".to_owned() },
    }
}

/// The pot of room `room_id`.
pub fn query_amount(state: &State, room_id: u64) -> (r: Result<AmountResponse, ContractError>)
    ensures
        match spec_read_room(state@, room_id) {
            Ok(room) => r matches Ok(a) && a.amount == room.amount,
            Err(e) => r matches Err(e2) && e2 == e,
        },
{
    match Room::read_room(state, room_id) {
        Ok(room) => Ok(AmountResponse { amount: room.amount }),
        Err(e) => Err(e),
    }
}

/// The titles on page `page_num` of `num_of_items` rooms each.
pub fn query_rooms(state: &State, page_num: u64, num_of_items: u64) -> (r: Result<
    RoomsResponse,
    ContractError,
>)
    requires
        state.rooms is Some ==> page_args_ok(page_num, num_of_items),
    ensures
        match state@.rooms {
            None => r matches Err(e) && e == ContractError::RoomsNotCreated,
            Some(rooms) => r matches Ok(resp) && titles_view(resp.rooms@) == page_titles(
                rooms,
                page_num,
                num_of_items,
            ),
        },
{
    match Room::get_rooms(state, page_num, num_of_items) {
        Ok(titles) => Ok(RoomsResponse { rooms: titles }),
        Err(e) => Err(e),
    }
}

/// Answers a query.
pub fn query(state: &State, msg: QueryMsg) -> (r: Result<QueryAnswer, ContractError>)
    requires
        msg matches QueryMsg::Rooms { page_num, num_of_items } ==> (state.rooms is Some
            ==> page_args_ok(page_num, num_of_items)),
    ensures
        match msg {
            QueryMsg::Winner { room_id } => match spec_read_room(state@, room_id) {
                Ok(room) => r matches Ok(QueryAnswer::Winner(w)) && opt_bytes_view(w)
                    == room.winner,
                Err(e) => r matches Err(e2) && e2 == e,
            },
            QueryMsg::Amount { room_id } => match spec_read_room(state@, room_id) {
                Ok(room) => r matches Ok(QueryAnswer::Amount(a)) && a.amount == room.amount,
                Err(e) => r matches Err(e2) && e2 == e,
            },
            QueryMsg::Rooms { page_num, num_of_items } => match state@.rooms {
                None => r matches Err(e) && e == ContractError::RoomsNotCreated,
                Some(rooms) => r matches Ok(QueryAnswer::Rooms(resp)) && titles_view(resp.rooms@)
                    == page_titles(rooms, page_num, num_of_items),
            },
        },
{
    match msg {
        QueryMsg::Winner { room_id } => match query_winner(state, room_id) {
            Ok(w) => Ok(QueryAnswer::Winner(w)),
            Err(e) => Err(e),
        },
        QueryMsg::Amount { room_id } => match query_amount(state, room_id) {
            Ok(a) => Ok(QueryAnswer::Amount(a)),
            Err(e) => Err(e),
        },
        QueryMsg::Rooms { page_num, num_of_items } => match query_rooms(
            state,
            page_num,
            num_of_items,
        ) {
            Ok(resp) => Ok(QueryAnswer::Rooms(resp)),
            Err(e) => Err(e),
        },
    }
}

} // verus!
