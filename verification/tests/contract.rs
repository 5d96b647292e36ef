use rock::contract::{
    calculate_amount, init, play_response, query, query_amount, query_rooms, query_winner,
    receive_response, send_tokens, snip20_payout, try_create, try_play, try_receive, try_register,
    winner_response, Payout, QueryAnswer,
};
use rock::error::ContractError;
use rock::msg::{Coin, CosmosMsg, InitMsg, Move, PlayMsg, QueryMsg, Snip20Msg};
use rock::state::{Room, State};

/// Stands in for the chain's address codec: the canonical form of an
/// address is its bytes.
fn canonical(human: &str) -> Option<Vec<u8>> {
    Some(human.as_bytes().to_vec())
}

fn human(canonical: &[u8]) -> String {
    String::from_utf8(canonical.to_vec()).unwrap()
}

fn coins(amount: u128, denom: &str) -> Vec<Coin> {
    vec![Coin { denom: denom.to_string(), amount }]
}

fn empty_state() -> State {
    State { total: None, rooms: None, config: None }
}

const CONTRACT: &str = "cosmos2contract";

/// Plays like the contract's handler: the payout is converted to the
/// winner's reported address and turned into the response.
fn handle_play(
    state: &mut State,
    sender: &str,
    funds: &Vec<Coin>,
    move1: Move,
    room_id: u64,
) -> Result<Vec<CosmosMsg>, ContractError> {
    let payout = try_play(state, canonical(sender), funds, move1, room_id)?;
    let payout = payout.map(|p| (human(&p.winner), p.amount));
    Ok(play_response(CONTRACT.to_string(), payout).messages)
}

fn query_rooms_of(state: &State, page_num: u64, num_of_items: u64) -> Vec<String> {
    match query(state, QueryMsg::Rooms { page_num, num_of_items }).unwrap() {
        QueryAnswer::Rooms(r) => r.rooms,
        _ => panic!("wrong answer"),
    }
}

fn query_winner_of(state: &State, room_id: u64) -> String {
    match query(state, QueryMsg::Winner { room_id }).unwrap() {
        QueryAnswer::Winner(w) => winner_response(w.map(|w| human(&w))).winner,
        _ => panic!("wrong answer"),
    }
}

fn assert_bank_payment(m: &CosmosMsg, to: &str, pot: u128) {
    match m {
        CosmosMsg::BankSend { from_address, to_address, amount } => {
            assert_eq!(from_address, CONTRACT);
            assert_eq!(to_address, to);
            assert_eq!(amount.len(), 1);
            assert_eq!(amount[0].denom, "uscrt");
            assert_eq!(amount[0].amount, pot);
        }
        _ => panic!("wrong message"),
    }
}

#[test]
fn proper_initialization() {
    let mut deps = empty_state();
    let msg = InitMsg {};
    let res = init(&mut deps, msg);
    assert_eq!(0, res.messages.len());
}

#[test]
fn create_room() {
    let mut deps = empty_state();
    let _res = init(&mut deps, InitMsg {});
    let _res = try_create(&mut deps, String::from("room1"));
    let _ress = try_create(&mut deps, String::from("room2"));
    let value = query_rooms_of(&deps, 1, 3);
    assert_eq!(vec![String::from("room1"), String::from("room2")], value);
}

#[test]
fn play() {
    let mut deps = empty_state();
    let _res = init(&mut deps, InitMsg {});
    let _res = try_create(&mut deps, String::from("room1"));
    let ress = try_create(&mut deps, String::from("room1"));
    assert_eq!(0, ress.messages.len());
    let _res = handle_play(&mut deps, "player1", &coins(40, "uscrt"), Move::Scissors, 1).unwrap();
    let _res2 = handle_play(&mut deps, "player2", &coins(2, "uscrt"), Move::Rock, 1).unwrap();
    let value = query_winner_of(&deps, 1);
    assert_eq!(value, "player2");
}

#[test]
fn finishing_play_pays_the_pot_in_native_coin() {
    let mut state = state_with_rooms(&["room1", "room1"]);
    let first = handle_play(&mut state, "player1", &coins(40, "uscrt"), Move::Scissors, 1).unwrap();
    assert!(first.is_empty());
    let res = handle_play(&mut state, "player2", &coins(2, "uscrt"), Move::Rock, 1).unwrap();
    assert_eq!(res.len(), 1);
    assert_bank_payment(&res[0], "player2", 42);
}

fn state_with_rooms(titles: &[&str]) -> State {
    let mut state = empty_state();
    init(&mut state, InitMsg {});
    for t in titles {
        try_create(&mut state, t.to_string());
    }
    state
}

#[test]
fn init_sets_counter_and_empty_config() {
    let mut state = empty_state();
    init(&mut state, InitMsg {});
    assert_eq!(state.total, Some(0));
    let config = state.config.as_ref().unwrap();
    assert_eq!(config.addr, "");
    assert_eq!(config.hash, "");
    assert!(state.rooms.is_none());
}

#[test]
fn rooms_get_ids_in_order() {
    let state = state_with_rooms(&["a", "b", "a"]);
    assert_eq!(state.total, Some(3));
    let rooms = state.rooms.as_ref().unwrap();
    let titles = ["a", "b", "a"];
    for (i, room) in rooms.iter().enumerate() {
        assert_eq!(room.room_id, i as u64);
        assert_eq!(room.room_title, titles[i]);
        assert!(room.player1.is_none() && !room.is_finished && room.amount == 0);
    }
    let room = Room::read_room(&state, 1).unwrap();
    assert_eq!(room.room_title, "b");
}

#[test]
fn next_id_counts_up() {
    let mut state = state_with_rooms(&[]);
    assert_eq!(Room::next_id(&mut state), 0);
    assert_eq!(Room::next_id(&mut state), 1);
    assert_eq!(state.total, Some(2));
}

#[test]
fn reading_before_any_room_exists() {
    let state = state_with_rooms(&[]);
    assert!(matches!(Room::read_room(&state, 0), Err(ContractError::RoomsNotCreated)));
    assert!(matches!(query_rooms(&state, 1, 10), Err(ContractError::RoomsNotCreated)));
    assert!(matches!(query_amount(&state, 0), Err(ContractError::RoomsNotCreated)));
}

#[test]
fn get_room_opens_the_list() {
    let mut state = state_with_rooms(&[]);
    assert!(matches!(Room::get_room(&mut state, 4), Err(ContractError::RoomNotFound)));
    assert_eq!(state.rooms.as_ref().map(|r| r.len()), Some(0));
    assert!(matches!(Room::read_room(&state, 4), Err(ContractError::RoomNotFound)));
}

#[test]
fn pages_of_titles() {
    let state = state_with_rooms(&["r0", "r1", "r2", "r3", "r4"]);
    assert_eq!(query_rooms(&state, 1, 2).unwrap().rooms, vec!["r0", "r1"]);
    assert_eq!(query_rooms(&state, 2, 2).unwrap().rooms, vec!["r2", "r3"]);
    assert_eq!(query_rooms(&state, 3, 2).unwrap().rooms, vec!["r4"]);
    assert!(query_rooms(&state, 4, 2).unwrap().rooms.is_empty());
    assert!(query_rooms(&state, 1, 0).unwrap().rooms.is_empty());
    assert_eq!(query_rooms(&state, 1, 10).unwrap().rooms.len(), 5);
}

#[test]
fn update_room_replaces_in_place() {
    let mut state = state_with_rooms(&["a", "b"]);
    let mut room = Room::read_room(&state, 1).unwrap();
    room.room_title = "renamed".to_string();
    assert_eq!(Room::update_room(&mut state, 1, &room), Ok(()));
    assert_eq!(Room::read_room(&state, 1).unwrap().room_title, "renamed");
    assert_eq!(Room::read_room(&state, 0).unwrap().room_title, "a");
    assert_eq!(Room::update_room(&mut state, 9, &room), Err(ContractError::RoomNotFound));
}

#[test]
fn stake_counts_native_coins_only() {
    let funds = vec![
        Coin { denom: "uscrt".to_string(), amount: 5 },
        Coin { denom: "earth".to_string(), amount: 7 },
        Coin { denom: "uscrt".to_string(), amount: 10 },
    ];
    assert_eq!(calculate_amount(&funds), 15);
    assert_eq!(calculate_amount(&coins(1000, "earth")), 0);
    assert_eq!(calculate_amount(&vec![]), 0);
}

#[test]
fn stake_ignores_order_of_coins() {
    let a = vec![
        Coin { denom: "uscrt".to_string(), amount: 5 },
        Coin { denom: "earth".to_string(), amount: 7 },
        Coin { denom: "uscrt".to_string(), amount: 10 },
    ];
    let b = vec![
        Coin { denom: "uscrt".to_string(), amount: 10 },
        Coin { denom: "uscrt".to_string(), amount: 5 },
        Coin { denom: "earth".to_string(), amount: 7 },
    ];
    assert_eq!(calculate_amount(&a), calculate_amount(&b));
}

#[test]
fn play_with_foreign_coins_is_refused() {
    let mut state = state_with_rooms(&["a"]);
    let r = try_play(&mut state, canonical("p1"), &coins(40, "token"), Move::Rock, 0);
    assert!(matches!(r, Err(ContractError::NotEnoughCoins)));
    let room = Room::read_room(&state, 0).unwrap();
    assert!(room.player1.is_none());
}

#[test]
fn play_in_missing_room_is_refused() {
    let mut state = state_with_rooms(&["a"]);
    let r = try_play(&mut state, canonical("p1"), &coins(40, "uscrt"), Move::Rock, 5);
    assert!(matches!(r, Err(ContractError::RoomNotFound)));
}

#[test]
fn missing_room_is_reported_before_a_bad_address() {
    let mut state = state_with_rooms(&["a"]);
    let r = try_play(&mut state, None, &coins(40, "uscrt"), Move::Rock, 5);
    assert!(matches!(r, Err(ContractError::RoomNotFound)));
    let r = try_play(&mut state, None, &coins(40, "uscrt"), Move::Rock, 0);
    assert!(matches!(r, Err(ContractError::InvalidAddress)));
    assert!(Room::read_room(&state, 0).unwrap().player1.is_none());
}

#[test]
fn send_tokens_pays_native_coin() {
    let res = send_tokens(CONTRACT.to_string(), "winner".to_string(), 42);
    assert_eq!(res.messages.len(), 1);
    assert_bank_payment(&res.messages[0], "winner", 42);
}

#[test]
fn play_response_without_payout_is_empty() {
    assert!(play_response(CONTRACT.to_string(), None).messages.is_empty());
    let res = play_response(CONTRACT.to_string(), Some(("w".to_string(), 7)));
    assert_eq!(res.messages.len(), 1);
    assert_bank_payment(&res.messages[0], "w", 7);
}

#[test]
fn register_needs_setup() {
    let mut state = empty_state();
    let r = try_register(&mut state, "mine".to_string(), "token".to_string(), "th".to_string());
    assert!(matches!(r, Err(ContractError::ConfigNotFound)));
    assert!(state.config.is_none());
}

#[test]
fn register_stores_token_and_asks_for_notifications() {
    let mut state = state_with_rooms(&[]);
    let res = try_register(&mut state, "mine".to_string(), "token".to_string(), "th".to_string())
        .unwrap();
    let config = state.config.as_ref().unwrap();
    assert_eq!(config.addr, "token");
    assert_eq!(config.hash, "th");
    assert_eq!(res.messages.len(), 1);
    match &res.messages[0] {
        CosmosMsg::WasmExecute { contract_addr, callback_code_hash, msg, send } => {
            assert_eq!(contract_addr, "token");
            assert_eq!(callback_code_hash, "th");
            assert!(send.is_empty());
            match msg {
                Snip20Msg::RegisterReceive { code_hash, padding } => {
                    assert_eq!(code_hash, "mine");
                    assert!(padding.is_none());
                }
                _ => panic!("wrong message"),
            }
        }
        _ => panic!("wrong message"),
    }
}

fn assert_token_transfer(m: &CosmosMsg, to: &str, pot: u128) {
    match m {
        CosmosMsg::WasmExecute { contract_addr, callback_code_hash, msg, send } => {
            assert_eq!(contract_addr, "token");
            assert_eq!(callback_code_hash, "th");
            assert!(send.is_empty());
            match msg {
                Snip20Msg::Transfer { recipient, amount, padding } => {
                    assert_eq!(recipient, to);
                    assert_eq!(*amount, pot);
                    assert!(padding.is_none());
                }
                _ => panic!("wrong message"),
            }
        }
        _ => panic!("wrong message"),
    }
}

#[test]
fn token_game_pays_through_token_contract() {
    let mut state = state_with_rooms(&["a"]);
    try_register(&mut state, "mine".to_string(), "token".to_string(), "th".to_string()).unwrap();
    let p1 = try_receive(&mut state, canonical("alice"), 30, PlayMsg { move1: Move::Paper, room_id: 0 })
        .unwrap();
    assert!(p1.is_none());
    assert!(receive_response(&state, None).unwrap().messages.is_empty());
    let p2 = try_receive(&mut state, canonical("bob"), 12, PlayMsg { move1: Move::Scissors, room_id: 0 })
        .unwrap()
        .unwrap();
    assert_eq!(p2.amount, 42);
    let winner = human(&p2.winner);
    assert_eq!(winner, "bob");
    let res = receive_response(&state, Some((winner, p2.amount))).unwrap();
    assert_eq!(res.messages.len(), 1);
    assert_token_transfer(&res.messages[0], "bob", 42);
    let direct = snip20_payout(&state, "bob".to_string(), 42).unwrap();
    assert_token_transfer(&direct.messages[0], "bob", 42);
    assert_eq!(query_amount(&state, 0).unwrap().amount, 42);
}

#[test]
fn payout_needs_config() {
    let state = empty_state();
    assert!(matches!(snip20_payout(&state, "bob".to_string(), 1), Err(ContractError::ConfigNotFound)));
    assert!(matches!(
        receive_response(&state, Some(("bob".to_string(), 1))),
        Err(ContractError::ConfigNotFound)
    ));
}

#[test]
fn winner_query_answers() {
    let mut state = state_with_rooms(&["a"]);
    assert_eq!(query_winner(&state, 0).unwrap(), None);
    assert_eq!(winner_response(None).winner, "No winner");
    handle_play(&mut state, "p1", &coins(1, "uscrt"), Move::Rock, 0).unwrap();
    handle_play(&mut state, "p2", &coins(1, "uscrt"), Move::Scissors, 0).unwrap();
    assert_eq!(query_winner_of(&state, 0), "p1");
    match query(&state, QueryMsg::Amount { room_id: 0 }).unwrap() {
        QueryAnswer::Amount(a) => assert_eq!(a.amount, 2),
        _ => panic!("wrong answer"),
    }
    assert_eq!(query_rooms_of(&state, 1, 1), vec!["a"]);
    assert!(matches!(query(&state, QueryMsg::Amount { room_id: 3 }), Err(ContractError::RoomNotFound)));
}

#[test]
fn finished_room_refuses_further_plays() {
    let mut state = state_with_rooms(&["a"]);
    handle_play(&mut state, "p1", &coins(1, "uscrt"), Move::Rock, 0).unwrap();
    handle_play(&mut state, "p2", &coins(1, "uscrt"), Move::Paper, 0).unwrap();
    let r = try_play(&mut state, canonical("p3"), &coins(1, "uscrt"), Move::Paper, 0);
    assert!(matches!(r, Err(ContractError::GameAlreadyFinished)));
    let room = Room::read_room(&state, 0).unwrap();
    assert!(room.is_finished);
    assert_eq!(room.winner, Some(b"p2".to_vec()));
    assert_eq!(room.amount, 2);
}

#[test]
fn drawn_play_is_refused_and_changes_nothing() {
    let mut state = state_with_rooms(&["a"]);
    handle_play(&mut state, "p1", &coins(1, "uscrt"), Move::Rock, 0).unwrap();
    let r = handle_play(&mut state, "p2", &coins(5, "uscrt"), Move::Rock, 0);
    assert!(matches!(r, Err(ContractError::Draw)));
    let room = Room::read_room(&state, 0).unwrap();
    assert!(!room.is_finished);
    assert!(room.player2.is_none());
    assert_eq!(room.amount, 1);
    let r = try_receive(&mut state, canonical("p3"), 2, PlayMsg { move1: Move::Rock, room_id: 0 });
    assert!(matches!(r, Err(ContractError::Draw)));
    assert_eq!(Room::read_room(&state, 0).unwrap().amount, 1);
}

#[test]
fn stake_of_joined_lists_adds_up() {
    let a = vec![
        Coin { denom: "uscrt".to_string(), amount: 3 },
        Coin { denom: "earth".to_string(), amount: 100 },
    ];
    let b = vec![Coin { denom: "uscrt".to_string(), amount: 4 }];
    let joined = vec![
        Coin { denom: "uscrt".to_string(), amount: 3 },
        Coin { denom: "earth".to_string(), amount: 100 },
        Coin { denom: "uscrt".to_string(), amount: 4 },
    ];
    assert_eq!(calculate_amount(&joined), calculate_amount(&a) + calculate_amount(&b));
    assert_eq!(calculate_amount(&joined), 7);
}

#[test]
fn payout_carries_winner_and_pot() {
    let mut state = state_with_rooms(&["a"]);
    try_play(&mut state, canonical("x"), &coins(3, "uscrt"), Move::Paper, 0).unwrap();
    let p: Payout = try_play(&mut state, canonical("y"), &coins(4, "uscrt"), Move::Rock, 0)
        .unwrap()
        .unwrap();
    assert_eq!(p.winner, b"x".to_vec());
    assert_eq!(p.amount, 7);
}
