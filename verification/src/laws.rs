//! Properties of the game and of the contract's bookkeeping that span
//! several calls or hold of every input.
use vstd::prelude::*;

use crate::contract::{
    bank_payment, native_denom, play_fits, register_call, transfer_call, spec_init, spec_payout, spec_play_in, spec_register, uscrt_total,
};
use crate::error::ContractError;
use crate::msg::{Coin, CoinView, CosmosMsg, Move, Snip20Msg};
use crate::state::{
    Player, PlayerView, Room, RoomView, State, StateView, beats, play_accepted, first_room_at, has_room, lemma_first_room_exists,
    lemma_room_position, lookup_room, new_room, open_rooms, page_titles, room_inv, room_position,
    spec_create_room, spec_play, spec_read_room, spec_update_room, stored_rooms, winner_of,
};

verus! {

// ---------------------------------------------------------------------------
// The rules of the game

/// Of two moves, exactly one of these holds: they are the same, the first
/// beats the second, or the second beats the first.
pub proof fn lemma_exactly_one_outcome(a: Move, b: Move)
    ensures
        a == b ==> !beats(a, b) && !beats(b, a),
        a != b ==> (beats(a, b) <==> !beats(b, a)),
{
}

/// Every move is beaten by exactly one move.
pub proof fn lemma_every_move_has_one_master(a: Move)
    ensures
        exists|b: Move| beats(b, a),
        forall|b: Move, c: Move| beats(b, a) && beats(c, a) ==> b == c,
{
    match a {
        Move::Rock => assert(beats(Move::Paper, a)),
        Move::Paper => assert(beats(Move::Scissors, a)),
        Move::Scissors => assert(beats(Move::Rock, a)),
    }
}

/// Who wins does not depend on which seat each player took.
pub proof fn lemma_winner_ignores_seating(p1: PlayerView, p2: PlayerView)
    ensures
        winner_of(p1, p2) == winner_of(p2, p1),
{
}

/// A round is drawn exactly when both players made the same move; otherwise
/// the winner is one of the two players.
pub proof fn lemma_draw_iff_same_move(p1: PlayerView, p2: PlayerView)
    ensures
        winner_of(p1, p2) is None <==> p1.move1 == p2.move1,
        winner_of(p1, p2) matches Some(w) ==> w == p1.address || w == p2.address,
{
}

// ---------------------------------------------------------------------------
// The life of a room

/// A new room is in shape.
pub proof fn lemma_new_room_in_shape(room_id: u64, room_title: Seq<char>)
    ensures
        room_inv(new_room(room_id, room_title)),
{
}

/// An accepted play keeps a room in shape, keeps its id and title, and adds
/// the stake to the pot.
pub proof fn lemma_play_keeps_shape(room: RoomView, player: PlayerView, amount: u128)
    requires
        room_inv(room),
        room.amount + amount <= u128::MAX,
    ensures
        spec_play(room, player, amount) matches Ok(after) ==> {
            &&& room_inv(after)
            &&& after.room_id == room.room_id
            &&& after.room_title == room.room_title
            &&& after.amount == room.amount + amount
        },
{
}

/// A finished room never changes again: every further play is refused.
pub proof fn lemma_finished_room_is_final(room: RoomView, player: PlayerView, amount: u128)
    requires
        room.is_finished,
    ensures
        spec_play(room, player, amount) is Err,
{
}

/// A full game: two distinct players with stakes play in a new room; the
/// room is then finished, its pot is the sum of the stakes, its winner is
/// the one the rules name, and any third play is refused.
pub proof fn lemma_full_game(
    room_id: u64,
    room_title: Seq<char>,
    p1: PlayerView,
    a1: u128,
    p2: PlayerView,
    a2: u128,
    p3: PlayerView,
    a3: u128,
)
    requires
        a1 != 0,
        a2 != 0,
        a1 + a2 <= u128::MAX,
        p1.address != p2.address,
    ensures
        spec_play(new_room(room_id, room_title), p1, a1) matches Ok(r1) && spec_play(r1, p2, a2) matches Ok(r2)
            && r2.is_finished && r2.amount == a1 + a2 && r2.winner == winner_of(p1, p2)
            && spec_play(r2, p3, a3) is Err,
{
}

/// A second play by the account that took the first seat is refused.
pub proof fn lemma_no_playing_twice(room: RoomView, player: PlayerView, amount: u128)
    requires
        amount != 0,
        !room.is_finished,
        room.player1 matches Some(p1) && p1.address == player.address,
    ensures
        spec_play(room, player, amount) == Err::<RoomView, ContractError>(
            ContractError::PlayTwice,
        ),
{
}

// ---------------------------------------------------------------------------
// The list of rooms

/// Rooms carry the ids 0, 1, 2, ... in order of creation, and the counter
/// holds the next id.
pub open spec fn ids_in_order(s: StateView) -> bool {
    &&& s.total is Some
    &&& s.total->0 == stored_rooms(s).len()
    &&& forall|i: int| 0 <= i < stored_rooms(s).len() ==> #[trigger] stored_rooms(s)[i].room_id == i
}

/// Setting up a contract that has no rooms yet puts the ids in order.
pub proof fn lemma_init_orders_ids(s: StateView)
    requires
        stored_rooms(s).len() == 0,
    ensures
        ids_in_order(spec_init(s)),
{
}

/// Creating a room keeps the ids in order.
pub proof fn lemma_create_keeps_ids(s: StateView, title: Seq<char>)
    requires
        ids_in_order(s),
        s.total->0 < u64::MAX,
    ensures
        ids_in_order(spec_create_room(s, title)),
{
    let t = spec_create_room(s, title);
    assert(stored_rooms(t) =~= stored_rooms(s).push(new_room(s.total->0, title)));
}

/// With the ids in order, room `id` is the one at position `id`.
pub proof fn lemma_ids_in_order_lookup(s: StateView, id: u64)
    requires
        ids_in_order(s),
        id < stored_rooms(s).len(),
    ensures
        lookup_room(stored_rooms(s), id) == Ok::<RoomView, ContractError>(stored_rooms(s)[id as int]),
{
    let rooms = stored_rooms(s);
    assert(rooms[id as int].room_id == id);
    assert forall|j: int| 0 <= j < id implies #[trigger] rooms[j].room_id != id by {
        assert(rooms[j].room_id == j);
    }
    assert(first_room_at(rooms, id, id as int));
    lemma_room_position(rooms, id, id as int);
}

/// After a room is created, reading its id gives the new room.
pub proof fn lemma_read_after_create(s: StateView, title: Seq<char>)
    requires
        ids_in_order(s),
        s.total->0 < u64::MAX,
    ensures
        spec_read_room(spec_create_room(s, title), s.total->0) == Ok::<RoomView, ContractError>(
            new_room(s.total->0, title),
        ),
{
    let t = spec_create_room(s, title);
    lemma_create_keeps_ids(s, title);
    lemma_ids_in_order_lookup(t, s.total->0);
    assert(stored_rooms(t) =~= stored_rooms(s).push(new_room(s.total->0, title)));
}

/// After the room under `room_id` is replaced by a room with that id,
/// reading `room_id` gives the new room.
pub proof fn lemma_read_after_update(s: StateView, room_id: u64, room: RoomView)
    requires
        has_room(stored_rooms(s), room_id),
        room.room_id == room_id,
    ensures
        spec_read_room(spec_update_room(s, room_id, room), room_id) == Ok::<RoomView, ContractError>(
            room,
        ),
{
    let rooms = stored_rooms(s);
    let k = choose|k: int| 0 <= k < rooms.len() && #[trigger] rooms[k].room_id == room_id;
    lemma_first_room_exists(rooms, room_id, k);
    let p = room_position(rooms, room_id);
    let after = rooms.update(p, room);
    assert forall|j: int| 0 <= j < p implies #[trigger] after[j].room_id != room_id by {
        assert(after[j] == rooms[j]);
    }
    assert(first_room_at(after, room_id, p));
    lemma_room_position(after, room_id, p);
    assert(stored_rooms(spec_update_room(s, room_id, room)) == after);
}

/// Replacing the room under `room_id` by a room with that id leaves what
/// every other id reads unchanged.
pub proof fn lemma_update_leaves_others(s: StateView, room_id: u64, room: RoomView, other: u64)
    requires
        s.rooms is Some,
        has_room(stored_rooms(s), room_id),
        room.room_id == room_id,
        other != room_id,
    ensures
        spec_read_room(spec_update_room(s, room_id, room), other) == spec_read_room(s, other),
{
    let rooms = stored_rooms(s);
    let k = choose|k: int| 0 <= k < rooms.len() && #[trigger] rooms[k].room_id == room_id;
    lemma_first_room_exists(rooms, room_id, k);
    let p = room_position(rooms, room_id);
    let after = rooms.update(p, room);
    assert(stored_rooms(spec_update_room(s, room_id, room)) == after);
    assert forall|j: int| 0 <= j < rooms.len() implies (#[trigger] after[j].room_id == other
        <==> rooms[j].room_id == other) by {
        if j == p {
            assert(rooms[p].room_id == room_id);
        } else {
            assert(after[j] == rooms[j]);
        }
    }
    if has_room(rooms, other) {
        let k2 = choose|k2: int| 0 <= k2 < rooms.len() && #[trigger] rooms[k2].room_id == other;
        lemma_first_room_exists(rooms, other, k2);
        let q = room_position(rooms, other);
        assert(q != p);
        assert forall|j: int| 0 <= j < q implies #[trigger] after[j].room_id != other by {
            assert(rooms[j].room_id != other);
        }
        assert(after[q] == rooms[q]);
        assert(first_room_at(after, other, q));
        lemma_room_position(after, other, q);
    } else {
        assert(!has_room(after, other)) by {
            if has_room(after, other) {
                let j = choose|j: int| 0 <= j < after.len() && #[trigger] after[j].room_id == other;
                assert(rooms[j].room_id == other);
            }
        }
    }
}

/// A played room is written back in place: reading its id afterwards gives
/// the room as played, and the ids stay in order.
pub proof fn lemma_read_after_play(
    s: StateView,
    room_id: u64,
    move1: Move,
    sender: Option<Seq<u8>>,
    amount: u128,
)
    ensures
        spec_play_in(s, room_id, move1, sender, amount).1 matches Ok(played) ==> spec_read_room(
            spec_play_in(s, room_id, move1, sender, amount).0,
            room_id,
        ) == Ok::<RoomView, ContractError>(played),
        ids_in_order(s) ==> ids_in_order(spec_play_in(s, room_id, move1, sender, amount).0),
{
    let opened = open_rooms(s);
    let rooms = stored_rooms(s);
    assert(stored_rooms(opened) == rooms);
    if let (Ok(room), Some(address)) = (lookup_room(rooms, room_id), sender) {
        let k = choose|k: int| 0 <= k < rooms.len() && #[trigger] rooms[k].room_id == room_id;
        lemma_first_room_exists(rooms, room_id, k);
        assert(first_room_at(rooms, room_id, room_position(rooms, room_id)));
        if let Ok(played) = spec_play(room, PlayerView { move1, address }, amount) {
            assert(played.room_id == room_id);
            lemma_read_after_update(opened, room_id, played);
            let p = room_position(rooms, room_id);
            let t = spec_update_room(opened, room_id, played);
            assert(stored_rooms(t) == rooms.update(p, played));
            if ids_in_order(s) {
                assert forall|i: int| 0 <= i < stored_rooms(t).len() implies #[trigger] stored_rooms(
                    t,
                )[i].room_id == i by {
                    if i != p {
                        assert(stored_rooms(t)[i] == rooms[i]);
                    }
                }
            }
        }
    }
}

/// A refused play changes no room; a play refused because it would end in
/// a draw changes nothing at all.
pub proof fn lemma_refused_play_changes_nothing(
    s: StateView,
    room_id: u64,
    move1: Move,
    sender: Option<Seq<u8>>,
    amount: u128,
)
    ensures
        spec_play_in(s, room_id, move1, sender, amount).1 is Err ==> spec_play_in(
            s,
            room_id,
            move1,
            sender,
            amount,
        ).0 == open_rooms(s),
        spec_play_in(s, room_id, move1, sender, amount).1 == Err::<RoomView, ContractError>(
            ContractError::Draw,
        ) ==> spec_play_in(s, room_id, move1, sender, amount).0 == s,
{
    let rooms = stored_rooms(s);
    if lookup_room(rooms, room_id) is Ok {
        let k = choose|k: int| 0 <= k < rooms.len() && #[trigger] rooms[k].room_id == room_id;
        assert(s.rooms is Some);
        assert(open_rooms(s) == s);
    }
}

/// A play that ends the game pays the whole pot to a winner who is one of
/// the two players; a play that does not end it pays nothing.
pub proof fn lemma_play_pays_the_winner(
    s: StateView,
    room_id: u64,
    move1: Move,
    sender: Option<Seq<u8>>,
    amount: u128,
)
    ensures
        spec_play_in(s, room_id, move1, sender, amount).1 matches Ok(played) ==> {
            &&& played.is_finished ==> spec_payout(played) == Some(
                (played.winner->0, played.amount),
            )
            &&& played.is_finished ==> played.winner->0 == played.player1->0.address
                || played.winner->0 == played.player2->0.address
            &&& !played.is_finished ==> spec_payout(played) is None
        },
{
    if let (Ok(room), Some(address)) = (lookup_room(stored_rooms(s), room_id), sender) {
        if let Ok(played) = spec_play(room, PlayerView { move1, address }, amount) {
            if played.is_finished && played.winner is Some {
                lemma_draw_iff_same_move(room.player1->0, PlayerView { move1, address });
            }
        }
    }
}

/// The shape of the whole state: ids in order, and every room in shape.
pub open spec fn state_inv(s: StateView) -> bool {
    &&& ids_in_order(s)
    &&& forall|i: int| 0 <= i < stored_rooms(s).len() ==> room_inv(#[trigger] stored_rooms(s)[i])
}

/// Setting up a contract that has no rooms yet puts the state in shape.
pub proof fn lemma_init_establishes_inv(s: StateView)
    requires
        stored_rooms(s).len() == 0,
    ensures
        state_inv(spec_init(s)),
{
}

/// Creating a room keeps the state in shape.
pub proof fn lemma_create_keeps_inv(s: StateView, title: Seq<char>)
    requires
        state_inv(s),
        s.total->0 < u64::MAX,
    ensures
        state_inv(spec_create_room(s, title)),
{
    lemma_create_keeps_ids(s, title);
    let t = spec_create_room(s, title);
    assert(stored_rooms(t) =~= stored_rooms(s).push(new_room(s.total->0, title)));
    assert forall|i: int| 0 <= i < stored_rooms(t).len() implies room_inv(
        #[trigger] stored_rooms(t)[i],
    ) by {
        if i < stored_rooms(s).len() {
            assert(stored_rooms(t)[i] == stored_rooms(s)[i]);
        }
    }
}

/// A play, accepted or refused, keeps the state in shape.
pub proof fn lemma_play_keeps_inv(
    s: StateView,
    room_id: u64,
    move1: Move,
    sender: Option<Seq<u8>>,
    amount: u128,
)
    requires
        state_inv(s),
        play_fits(s, room_id, move1, sender, amount),
    ensures
        state_inv(spec_play_in(s, room_id, move1, sender, amount).0),
{
    lemma_read_after_play(s, room_id, move1, sender, amount);
    let rooms = stored_rooms(s);
    let t = spec_play_in(s, room_id, move1, sender, amount).0;
    assert(stored_rooms(open_rooms(s)) == rooms);
    if let (Ok(room), Some(address)) = (lookup_room(rooms, room_id), sender) {
        let k = choose|k: int| 0 <= k < rooms.len() && #[trigger] rooms[k].room_id == room_id;
        lemma_first_room_exists(rooms, room_id, k);
        let p = room_position(rooms, room_id);
        assert(first_room_at(rooms, room_id, p));
        let player = PlayerView { move1, address };
        if let Ok(played) = spec_play(room, player, amount) {
            if !(played.is_finished && played.winner is None) {
                assert(room_inv(rooms[p]));
                if play_accepted(room, player, amount) {
                    lemma_play_keeps_shape(room, player, amount);
                }
                assert(stored_rooms(t) == rooms.update(p, played));
                assert forall|i: int| 0 <= i < stored_rooms(t).len() implies room_inv(
                    #[trigger] stored_rooms(t)[i],
                ) by {
                    if i != p {
                        assert(stored_rooms(t)[i] == rooms[i]);
                    }
                }
            }
        }
    }
}

/// Registering a token keeps the state in shape.
pub proof fn lemma_register_keeps_inv(s: StateView, addr: Seq<char>, hash: Seq<char>)
    requires
        state_inv(s),
    ensures
        state_inv(spec_register(s, addr, hash)),
{
    assert(stored_rooms(spec_register(s, addr, hash)) == stored_rooms(s));
}

/// The state after creating rooms titled `titles`, one after the other.
pub open spec fn create_all(s: StateView, titles: Seq<Seq<char>>) -> StateView
    decreases titles.len(),
{
    if titles.len() == 0 {
        s
    } else {
        spec_create_room(create_all(s, titles.drop_last()), titles.last())
    }
}

/// After setting up a contract with no rooms and creating rooms titled
/// `t_0, ..., t_{k-1}`, the rooms are exactly `new(0, t_0), ...,
/// new(k-1, t_{k-1})` in that order and the counter holds `k`, whatever the
/// titles.
pub proof fn lemma_rooms_after_creations(s: StateView, titles: Seq<Seq<char>>)
    requires
        stored_rooms(s).len() == 0,
        titles.len() < u64::MAX,
    ensures
        stored_rooms(create_all(spec_init(s), titles)) == Seq::new(
            titles.len(),
            |i: int| new_room(i as u64, titles[i]),
        ),
        create_all(spec_init(s), titles).total == Some(titles.len() as u64),
    decreases titles.len(),
{
    if titles.len() == 0 {
        assert(stored_rooms(spec_init(s)) =~= Seq::<RoomView>::empty());
    } else {
        let rest = titles.drop_last();
        lemma_rooms_after_creations(s, rest);
        let before = create_all(spec_init(s), rest);
        assert(stored_rooms(create_all(spec_init(s), titles)) =~= stored_rooms(before).push(
            new_room(rest.len() as u64, titles.last()),
        ));
        assert(stored_rooms(create_all(spec_init(s), titles)) =~= Seq::new(
            titles.len(),
            |i: int| new_room(i as u64, titles[i]),
        ));
    }
}

/// When a page holds at least as many titles as there are rooms, the first
/// page lists every title in order of creation.
pub proof fn lemma_first_page_lists_all(rooms: Seq<RoomView>, num_of_items: u64)
    requires
        num_of_items >= rooms.len(),
    ensures
        page_titles(rooms, 1, num_of_items) == rooms.map_values(|r: RoomView| r.room_title),
{
    assert(rooms.subrange(0, rooms.len() as int) =~= rooms);
}

// ---------------------------------------------------------------------------
// Stakes

/// Coins other than the native one count for nothing in a stake.
pub proof fn lemma_foreign_coins_count_nothing(coins: Seq<CoinView>)
    requires
        forall|i: int| 0 <= i < coins.len() ==> #[trigger] coins[i].denom != native_denom(),
    ensures
        uscrt_total(coins) == 0,
    decreases coins.len(),
{
    if coins.len() > 0 {
        assert(coins.last() == coins[coins.len() - 1]);
        lemma_foreign_coins_count_nothing(coins.drop_last());
    }
}

/// What one coin adds to a stake.
pub open spec fn native_amount(c: CoinView) -> nat {
    if c.denom == native_denom() {
        c.amount as nat
    } else {
        0
    }
}

/// Taking one coin out of a list takes its amount out of the stake.
pub proof fn lemma_stake_without(coins: Seq<CoinView>, i: int)
    requires
        0 <= i < coins.len(),
    ensures
        uscrt_total(coins) == uscrt_total(coins.remove(i)) + native_amount(coins[i]),
{
    let a = coins.subrange(0, i);
    let b = coins.subrange(i + 1, coins.len() as int);
    let x = seq![coins[i]];
    assert(coins =~= (a + x) + b);
    assert(coins.remove(i) =~= a + b);
    lemma_stake_adds_up(a + x, b);
    lemma_stake_adds_up(a, x);
    lemma_stake_adds_up(a, b);
    assert(x.drop_last() =~= Seq::<CoinView>::empty());
    assert(x.last() == coins[i]);
    assert(uscrt_total(x.drop_last()) == 0);
    assert(uscrt_total(x) == native_amount(coins[i]));
}

/// The stake does not depend on the order in which the coins come.
pub proof fn lemma_stake_ignores_order(a: Seq<CoinView>, b: Seq<CoinView>)
    requires
        a.to_multiset() == b.to_multiset(),
    ensures
        uscrt_total(a) == uscrt_total(b),
    decreases a.len(),
{
    broadcast use vstd::seq_lib::group_to_multiset_ensures;

    if a.len() == 0 {
        assert(b.to_multiset().len() == 0);
        assert(b =~= Seq::<CoinView>::empty());
        assert(a =~= Seq::<CoinView>::empty());
    } else {
        let n = a.len() - 1;
        let x = a[n];
        assert(a.contains(x));
        assert(b.to_multiset().count(x) > 0);
        assert(b.contains(x));
        let j = choose|j: int| 0 <= j < b.len() && b[j] == x;
        lemma_stake_without(a, n);
        lemma_stake_without(b, j);
        assert(a.remove(n).to_multiset() =~= a.to_multiset().remove(x));
        assert(b.remove(j).to_multiset() =~= b.to_multiset().remove(x));
        lemma_stake_ignores_order(a.remove(n), b.remove(j));
    }
}

/// The stake of two lists of coins together is the sum of their stakes.
pub proof fn lemma_stake_adds_up(a: Seq<CoinView>, b: Seq<CoinView>)
    ensures
        uscrt_total(a + b) == uscrt_total(a) + uscrt_total(b),
    decreases b.len(),
{
    if b.len() == 0 {
        assert(a + b =~= a);
    } else {
        lemma_stake_adds_up(a, b.drop_last());
        assert((a + b).drop_last() =~= a + b.drop_last());
        assert((a + b).last() == b.last());
    }
}

// ---------------------------------------------------------------------------
// What each operation does, stated by its inputs and results

/// The rules of rock-paper-scissors, whatever the addresses: the same move
/// is a draw; paper beats rock, rock beats scissors, scissors beat paper,
/// and the winner is the address of the player who made the beating move.
pub proof fn lemma_winner_rules(p1: PlayerView, p2: PlayerView)
    ensures
        p1.move1 == p2.move1 ==> winner_of(p1, p2) == None::<Seq<u8>>,
        p1.move1 == Move::Paper && p2.move1 == Move::Rock ==> winner_of(p1, p2) == Some(
            p1.address,
        ),
        p1.move1 == Move::Rock && p2.move1 == Move::Scissors ==> winner_of(p1, p2) == Some(
            p1.address,
        ),
        p1.move1 == Move::Scissors && p2.move1 == Move::Paper ==> winner_of(p1, p2) == Some(
            p1.address,
        ),
        p1.move1 == Move::Rock && p2.move1 == Move::Paper ==> winner_of(p1, p2) == Some(
            p2.address,
        ),
        p1.move1 == Move::Scissors && p2.move1 == Move::Rock ==> winner_of(p1, p2) == Some(
            p2.address,
        ),
        p1.move1 == Move::Paper && p2.move1 == Move::Scissors ==> winner_of(p1, p2) == Some(
            p2.address,
        ),
{
}

/// What a play does to a room. Without a stake it is refused, whichever
/// seat is free; in a finished room it is refused; the first player takes
/// the first seat; the same account cannot take the second; a distinct
/// second player takes it and ends the game with the winner the rules
/// name. An accepted play adds the stake to the pot and keeps the room's
/// id and title.
pub proof fn lemma_play_rules(room: RoomView, player: PlayerView, amount: u128)
    requires
        room.amount + amount <= u128::MAX,
    ensures
        amount == 0 ==> spec_play(room, player, amount) == Err::<RoomView, ContractError>(
            ContractError::NotEnoughCoins,
        ),
        amount != 0 && room.is_finished ==> spec_play(room, player, amount) == Err::<
            RoomView,
            ContractError,
        >(ContractError::GameAlreadyFinished),
        amount != 0 && !room.is_finished && room.player1 is None ==> (spec_play(
            room,
            player,
            amount,
        ) matches Ok(r) && r.player1 == Some(player) && r.player2 == room.player2
            && !r.is_finished && r.winner == room.winner && r.amount == room.amount + amount
            && r.room_id == room.room_id && r.room_title == room.room_title),
        amount != 0 && !room.is_finished && room.player1 is Some && room.player1->0.address
            == player.address ==> spec_play(room, player, amount) == Err::<RoomView, ContractError>(
            ContractError::PlayTwice,
        ),
        amount != 0 && !room.is_finished && room.player1 is Some && room.player1->0.address
            != player.address ==> (spec_play(room, player, amount) matches Ok(r) && r.player1
            == room.player1 && r.player2 == Some(player) && r.is_finished && r.winner == winner_of(
            room.player1->0,
            player,
        ) && r.amount == room.amount + amount && r.room_id == room.room_id && r.room_title
            == room.room_title),
{
}

/// A new room keeps its id and exactly the title it was given, and is
/// empty and open.
pub proof fn lemma_new_room_fields(room_id: u64, room_title: Seq<char>)
    ensures
        new_room(room_id, room_title).room_id == room_id,
        new_room(room_id, room_title).room_title == room_title,
        new_room(room_id, room_title).player1 is None,
        new_room(room_id, room_title).player2 is None,
        !new_room(room_id, room_title).is_finished,
        new_room(room_id, room_title).amount == 0,
        new_room(room_id, room_title).winner is None,
{
}

/// Creating a room adds one room at the end of the list, with the counter's
/// id and exactly the given title, empty and open; the earlier rooms, the
/// configuration are kept, and the counter moves on by one.
pub proof fn lemma_create_room_effect(s: StateView, title: Seq<char>)
    requires
        s.total is Some,
        s.total->0 < u64::MAX,
    ensures
        ({
            let t = spec_create_room(s, title);
            let n = stored_rooms(s).len();
            &&& t.total == Some((s.total->0 + 1) as u64)
            &&& t.config == s.config
            &&& t.rooms is Some
            &&& stored_rooms(t).len() == n + 1
            &&& forall|i: int| 0 <= i < n ==> #[trigger] stored_rooms(t)[i] == stored_rooms(s)[i]
            &&& stored_rooms(t)[n as int].room_id == s.total->0
            &&& stored_rooms(t)[n as int].room_title == title
            &&& stored_rooms(t)[n as int].player1 is None
            &&& stored_rooms(t)[n as int].player2 is None
            &&& !stored_rooms(t)[n as int].is_finished
            &&& stored_rooms(t)[n as int].amount == 0
            &&& stored_rooms(t)[n as int].winner is None
        }),
{
    let t = spec_create_room(s, title);
    assert(stored_rooms(t) =~= stored_rooms(s).push(new_room(s.total->0, title)));
}

/// A created room keeps exactly its title: reading it back by its id gives
/// that title, and when it is the only room, the first page lists exactly
/// that title.
pub proof fn lemma_created_title_kept(s: StateView, title: Seq<char>, num_of_items: u64)
    requires
        ids_in_order(s),
        s.total->0 < u64::MAX,
    ensures
        spec_read_room(spec_create_room(s, title), s.total->0) matches Ok(r) && r.room_title
            == title && r.room_id == s.total->0,
        stored_rooms(s).len() == 0 && num_of_items >= 1 ==> page_titles(
            stored_rooms(spec_create_room(s, title)),
            1,
            num_of_items,
        ) == seq![title],
{
    lemma_read_after_create(s, title);
    let t = spec_create_room(s, title);
    assert(stored_rooms(t) =~= stored_rooms(s).push(new_room(s.total->0, title)));
    if stored_rooms(s).len() == 0 && num_of_items >= 1 {
        assert(stored_rooms(t).subrange(0, 1) =~= seq![new_room(s.total->0, title)]);
        assert(page_titles(stored_rooms(t), 1, num_of_items) =~= seq![title]);
    }
}

/// Registering a token stores exactly the given address and code hash,
/// whatever was registered before, and keeps the rooms and the counter.
pub proof fn lemma_register_effect(s: StateView, addr: Seq<char>, hash: Seq<char>)
    ensures
        spec_register(s, addr, hash).config matches Some(c) && c.addr == addr && c.hash == hash,
        spec_register(s, addr, hash).rooms == s.rooms,
        spec_register(s, addr, hash).total == s.total,
{
}

/// Of two registrations, the later one is the one that counts.
pub proof fn lemma_last_registration_counts(
    s: StateView,
    addr1: Seq<char>,
    hash1: Seq<char>,
    addr2: Seq<char>,
    hash2: Seq<char>,
)
    ensures
        spec_register(spec_register(s, addr1, hash1), addr2, hash2).config matches Some(c)
            && c.addr == addr2 && c.hash == hash2,
{
}

/// Setting up starts the counter at 0, configures no token (empty address
/// and code hash), and leaves the rooms alone.
pub proof fn lemma_init_effect(s: StateView)
    ensures
        spec_init(s).total == Some(0u64),
        spec_init(s).config matches Some(c) && c.addr.len() == 0 && c.hash.len() == 0,
        spec_init(s).rooms == s.rooms,
{
}

/// Looking a room up finds the first room with the requested id, and is
/// refused exactly when no room has that id.
pub proof fn lemma_lookup_meaning(rooms: Seq<RoomView>, room_id: u64)
    ensures
        lookup_room(rooms, room_id) matches Ok(r) ==> r.room_id == room_id && exists|i: int|
            0 <= i < rooms.len() && rooms[i] == r && forall|j: int|
                0 <= j < i ==> #[trigger] rooms[j].room_id != room_id,
        lookup_room(rooms, room_id) is Err <==> forall|i: int|
            0 <= i < rooms.len() ==> #[trigger] rooms[i].room_id != room_id,
        lookup_room(rooms, room_id) is Err ==> lookup_room(rooms, room_id) == Err::<
            RoomView,
            ContractError,
        >(ContractError::RoomNotFound),
{
    if has_room(rooms, room_id) {
        let k = choose|k: int| 0 <= k < rooms.len() && #[trigger] rooms[k].room_id == room_id;
        lemma_first_room_exists(rooms, room_id, k);
        let p = room_position(rooms, room_id);
        assert(first_room_at(rooms, room_id, p));
    }
}

/// Reading a room from a state whose list was never created is refused with
/// `RoomsNotCreated`; otherwise it is the lookup in the list.
pub proof fn lemma_read_meaning(s: StateView, room_id: u64)
    ensures
        s.rooms is None ==> spec_read_room(s, room_id) == Err::<RoomView, ContractError>(
            ContractError::RoomsNotCreated,
        ),
        s.rooms is Some ==> spec_read_room(s, room_id) == lookup_room(stored_rooms(s), room_id),
{
}

/// Page `p` of `n` titles holds the titles of the rooms from position
/// `(p - 1) * n` on, in order, at most `n` of them, and none past the end.
pub proof fn lemma_page_contents(rooms: Seq<RoomView>, page_num: u64, num_of_items: u64)
    requires
        page_num >= 1,
    ensures
        ({
            let start = (page_num - 1) * num_of_items;
            let page = page_titles(rooms, page_num, num_of_items);
            &&& start >= rooms.len() ==> page.len() == 0
            &&& start < rooms.len() && start + num_of_items <= rooms.len() ==> page.len()
                == num_of_items
            &&& start < rooms.len() && start + num_of_items > rooms.len() ==> page.len()
                == rooms.len() - start
            &&& forall|k: int| 0 <= k < page.len() ==> #[trigger] page[k] == rooms[start
                + k].room_title
        }),
{
}

/// The stake of no coins is 0; each further coin adds its amount when it
/// is `uscrt`, and nothing otherwise.
pub proof fn lemma_stake_rules(coins: Seq<CoinView>, c: CoinView)
    ensures
        uscrt_total(Seq::<CoinView>::empty()) == 0,
        c.denom == "uscrt"@ ==> uscrt_total(coins.push(c)) == uscrt_total(coins) + c.amount,
        c.denom != "uscrt"@ ==> uscrt_total(coins.push(c)) == uscrt_total(coins),
{
    assert(coins.push(c).drop_last() =~= coins);
}

/// A play in the state runs the play on the first room with the requested
/// id: refused as the lookup is when there is no such room, refused when
/// the address could not be converted, refused as the play is, refused when
/// it would end in a draw; otherwise its result is the room as played by the
/// sender with the given move and stake.
pub proof fn lemma_play_in_meaning(
    s: StateView,
    room_id: u64,
    move1: Move,
    sender: Option<Seq<u8>>,
    amount: u128,
)
    ensures
        ({
            let res = spec_play_in(s, room_id, move1, sender, amount).1;
            let found = lookup_room(stored_rooms(s), room_id);
            &&& found matches Err(e) ==> res == Err::<RoomView, ContractError>(e)
            &&& found is Ok && sender is None ==> res == Err::<RoomView, ContractError>(
                ContractError::InvalidAddress,
            )
            &&& match (found, sender) {
                (Ok(room), Some(a)) => match spec_play(room, PlayerView { move1, address: a }, amount) {
                    Err(e) => res == Err::<RoomView, ContractError>(e),
                    Ok(_) => true,
                },
                _ => true,
            }
            &&& res matches Ok(played) ==> (found matches Ok(room) && sender matches Some(a)
                && spec_play(room, PlayerView { move1, address: a }, amount) == Ok::<
                RoomView,
                ContractError,
            >(played) && played.room_id == room_id && !(played.is_finished
                && played.winner is None))
            &&& res == Err::<RoomView, ContractError>(ContractError::Draw) ==> (found matches Ok(
                room,
            ) && sender matches Some(a) && spec_play(room, PlayerView { move1, address: a }, amount) matches Ok(
                played,
            ) && played.is_finished && played.winner is None)
        }),
{
    let rooms = stored_rooms(s);
    if let Ok(room) = lookup_room(rooms, room_id) {
        lemma_lookup_meaning(rooms, room_id);
    }
}

/// What the message predicates mean, field by field.
pub proof fn lemma_payment_messages(
    m: CosmosMsg,
    from: Seq<char>,
    to: Seq<char>,
    contract: Seq<char>,
    hash: Seq<char>,
    amount: u128,
)
    ensures
        bank_payment(m, from, to, amount) ==> (m matches CosmosMsg::BankSend {
            from_address: f,
            to_address: t,
            amount: c,
        } && f@ == from && t@ == to && c@.len() == 1 && c@[0].denom@ == "uscrt"@ && c@[0].amount
            == amount),
        transfer_call(m, contract, hash, to, amount) ==> (m matches CosmosMsg::WasmExecute {
            contract_addr: a,
            callback_code_hash: h,
            msg: Snip20Msg::Transfer { recipient: r, amount: x, padding: None },
            send,
        } && a@ == contract && h@ == hash && r@ == to && x == amount && send@.len() == 0),
        register_call(m, contract, hash, from) ==> (m matches CosmosMsg::WasmExecute {
            contract_addr: a,
            callback_code_hash: h,
            msg: Snip20Msg::RegisterReceive { code_hash: c, padding: None },
            send,
        } && a@ == contract && h@ == hash && c@ == from && send@.len() == 0),
{
}

/// The messages the contract reports for its refusals.
pub proof fn lemma_error_messages()
    ensures
        ContractError::NotEnoughCoins.spec_message() == "Not enough coins"@,
        ContractError::GameAlreadyFinished.spec_message() == "Game already finished"@,
        ContractError::PlayTwice.spec_message() == "You can't play twice"@,
        ContractError::RoomNotFound.spec_message() == "Room not found"@,
        ContractError::RoomsNotCreated.spec_message() == "Rooms not created"@,
        ContractError::ConfigNotFound.spec_message() == "rock::state::SnipState not found"@,
{
}

/// The spec form of a room, a player, a coin and the state carries every
/// field as it is.
pub proof fn lemma_views_keep_fields(room: Room, player: Player, coin: Coin, state: State)
    ensures
        room@.room_id == room.room_id,
        room@.room_title == room.room_title@,
        room@.amount == room.amount,
        room@.is_finished == room.is_finished,
        room.winner matches Some(w) ==> room@.winner == Some(w@),
        room.winner is None ==> room@.winner is None,
        room.player1 matches Some(p) ==> room@.player1 == Some(p@),
        room.player1 is None ==> room@.player1 is None,
        room.player2 matches Some(p) ==> room@.player2 == Some(p@),
        room.player2 is None ==> room@.player2 is None,
        player@.move1 == player.move1,
        player@.address == player.address@,
        coin@.denom == coin.denom@,
        coin@.amount == coin.amount,
        state@.total == state.total,
        state.rooms matches Some(v) ==> (state@.rooms matches Some(r) && r.len() == v@.len()
            && forall|i: int| 0 <= i < r.len() ==> #[trigger] r[i] == v@[i]@),
        state.rooms is None ==> state@.rooms is None,
        state.config matches Some(c) ==> (state@.config matches Some(cv) && cv.addr == c.addr@
            && cv.hash == c.hash@),
        state.config is None ==> state@.config is None,
{
}

} // verus!
