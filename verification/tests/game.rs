use rock::error::ContractError;
use rock::msg::{Move, Snip20Msg};
use rock::state::{Player, Room};

fn player(move1: Move, address: &[u8]) -> Player {
    Player { move1, address: address.to_vec() }
}

fn winner(a: Move, b: Move) -> Option<Vec<u8>> {
    Room::calculate_winner(player(a, b"first"), player(b, b"second"))
}

#[test]
fn winner_table_matches_the_rules() {
    let first = Some(b"first".to_vec());
    let second = Some(b"second".to_vec());
    assert_eq!(winner(Move::Rock, Move::Rock), None);
    assert_eq!(winner(Move::Paper, Move::Paper), None);
    assert_eq!(winner(Move::Scissors, Move::Scissors), None);
    assert_eq!(winner(Move::Paper, Move::Rock), first);
    assert_eq!(winner(Move::Rock, Move::Scissors), first);
    assert_eq!(winner(Move::Scissors, Move::Paper), first);
    assert_eq!(winner(Move::Rock, Move::Paper), second);
    assert_eq!(winner(Move::Scissors, Move::Rock), second);
    assert_eq!(winner(Move::Paper, Move::Scissors), second);
}

#[test]
fn winner_ignores_seating() {
    let moves = [Move::Rock, Move::Paper, Move::Scissors];
    for a in moves {
        for b in moves {
            let ab = Room::calculate_winner(player(a, b"alice"), player(b, b"bob"));
            let ba = Room::calculate_winner(player(b, b"bob"), player(a, b"alice"));
            assert_eq!(ab, ba);
        }
    }
}

#[test]
fn new_room_is_empty() {
    let room = Room::new(7, "lobby".to_string());
    assert_eq!(room.room_id, 7);
    assert_eq!(room.room_title, "lobby");
    assert!(room.player1.is_none());
    assert!(room.player2.is_none());
    assert!(!room.is_finished);
    assert_eq!(room.amount, 0);
    assert!(room.winner.is_none());
}

#[test]
fn full_game_pays_the_pot_to_the_winner() {
    let mut room = Room::new(0, "r".to_string());
    assert_eq!(room.play(player(Move::Scissors, b"p1"), 40), Ok(()));
    assert!(!room.is_finished);
    assert_eq!(room.amount, 40);
    assert!(room.winner.is_none());
    assert_eq!(room.play(player(Move::Rock, b"p2"), 2), Ok(()));
    assert!(room.is_finished);
    assert_eq!(room.amount, 42);
    assert_eq!(room.winner, Some(b"p2".to_vec()));
    assert_eq!(room.player1.as_ref().unwrap().address, b"p1".to_vec());
    assert_eq!(room.player2.as_ref().unwrap().move1, Move::Rock);
}

#[test]
fn finished_room_refuses_every_play() {
    let mut room = Room::new(0, "r".to_string());
    room.play(player(Move::Rock, b"p1"), 1).unwrap();
    room.play(player(Move::Paper, b"p2"), 1).unwrap();
    assert_eq!(room.play(player(Move::Rock, b"p3"), 5), Err(ContractError::GameAlreadyFinished));
    assert_eq!(room.play(player(Move::Rock, b"p3"), 0), Err(ContractError::NotEnoughCoins));
    assert_eq!(room.amount, 2);
    assert_eq!(room.winner, Some(b"p2".to_vec()));
}

#[test]
fn play_without_stake_is_refused() {
    let mut room = Room::new(0, "r".to_string());
    assert_eq!(room.play(player(Move::Rock, b"p1"), 0), Err(ContractError::NotEnoughCoins));
    assert!(room.player1.is_none());
    assert_eq!(room.amount, 0);
}

#[test]
fn playing_twice_is_refused() {
    let mut room = Room::new(0, "r".to_string());
    room.play(player(Move::Rock, b"p1"), 3).unwrap();
    assert_eq!(room.play(player(Move::Paper, b"p1"), 4), Err(ContractError::PlayTwice));
    assert_eq!(room.amount, 3);
    assert!(room.player2.is_none());
    assert!(!room.is_finished);
}

#[test]
fn draw_finishes_without_winner() {
    let mut room = Room::new(0, "r".to_string());
    room.play(player(Move::Paper, b"p1"), 3).unwrap();
    room.play(player(Move::Paper, b"p2"), 4).unwrap();
    assert!(room.is_finished);
    assert!(room.winner.is_none());
    assert_eq!(room.amount, 7);
}

#[test]
fn error_messages() {
    assert_eq!(ContractError::NotEnoughCoins.message(), "Not enough coins");
    assert_eq!(ContractError::GameAlreadyFinished.message(), "Game already finished");
    assert_eq!(ContractError::PlayTwice.message(), "You can't play twice");
    assert_eq!(ContractError::RoomNotFound.message(), "Room not found");
    assert_eq!(ContractError::RoomsNotCreated.message(), "Rooms not created");
    assert_eq!(ContractError::ConfigNotFound.message(), "rock::state::SnipState not found");
    assert_eq!(ContractError::Draw.message(), "Game ended in a draw: no winner to pay");
    assert_eq!(ContractError::InvalidAddress.message(), "Invalid address");
}

#[test]
fn snip20_messages() {
    match Snip20Msg::register_receive("hash".to_string()) {
        Snip20Msg::RegisterReceive { code_hash, padding } => {
            assert_eq!(code_hash, "hash");
            assert!(padding.is_none());
        }
        _ => panic!("wrong message"),
    }
    match Snip20Msg::transfer("bob".to_string(), 9) {
        Snip20Msg::Transfer { recipient, amount, padding } => {
            assert_eq!(recipient, "bob");
            assert_eq!(amount, 9);
            assert!(padding.is_none());
        }
        _ => panic!("wrong message"),
    }
}
