use vstd::prelude::*;

use crate::error::ContractError;
use crate::msg::Move;

verus! {

/// One seat at a table: the move that was made and the account (in its
/// canonical byte form) that made it.
pub struct Player {
    pub move1: Move,
    pub address: Vec<u8>,
}

pub struct PlayerView {
    pub move1: Move,
    pub address: Seq<u8>,
}

impl View for Player {
    type V = PlayerView;

    open spec fn view(&self) -> PlayerView {
        PlayerView { move1: self.move1, address: self.address@ }
    }
}

pub open spec fn opt_player_view(p: Option<Player>) -> Option<PlayerView> {
    match p {
        Some(p) => Some(p@),
        None => None,
    }
}

pub open spec fn opt_bytes_view(a: Option<Vec<u8>>) -> Option<Seq<u8>> {
    match a {
        Some(a) => Some(a@),
        None => None,
    }
}

/// A game room. The first player to play takes the first seat, a second,
/// distinct player ends the game; the pot is the sum of their stakes.
pub struct Room {
    pub player1: Option<Player>,
    pub player2: Option<Player>,
    pub is_finished: bool,
    pub amount: u128,
    pub winner: Option<Vec<u8>>,
    pub room_id: u64,
    pub room_title: String,
}

pub struct RoomView {
    pub player1: Option<PlayerView>,
    pub player2: Option<PlayerView>,
    pub is_finished: bool,
    pub amount: u128,
    pub winner: Option<Seq<u8>>,
    pub room_id: u64,
    pub room_title: Seq<char>,
}

impl View for Room {
    type V = RoomView;

    open spec fn view(&self) -> RoomView {
        RoomView {
            player1: opt_player_view(self.player1),
            player2: opt_player_view(self.player2),
            is_finished: self.is_finished,
            amount: self.amount,
            winner: opt_bytes_view(self.winner),
            room_id: self.room_id,
            room_title: self.room_title@,
        }
    }
}

pub open spec fn rooms_view(rooms: Seq<Room>) -> Seq<RoomView> {
    rooms.map_values(|r: Room| r@)
}

/// The SNIP-20 token contract that stakes may come from: its address and
/// code hash.
pub struct SnipState {
    pub addr: String,
    pub hash: String,
}

pub struct SnipStateView {
    pub addr: Seq<char>,
    pub hash: Seq<char>,
}

impl View for SnipState {
    type V = SnipStateView;

    open spec fn view(&self) -> SnipStateView {
        SnipStateView { addr: self.addr@, hash: self.hash@ }
    }
}

// ---------------------------------------------------------------------------
// The rules of the game

/// `a` beats `b`: paper wraps rock, rock blunts scissors, scissors cut paper.
pub open spec fn beats(a: Move, b: Move) -> bool {
    ||| a == Move::Paper && b == Move::Rock
    ||| a == Move::Rock && b == Move::Scissors
    ||| a == Move::Scissors && b == Move::Paper
}

/// The address of the player whose move beats the other's; none on a draw.
pub open spec fn winner_of(p1: PlayerView, p2: PlayerView) -> Option<Seq<u8>> {
    if beats(p1.move1, p2.move1) {
        Some(p1.address)
    } else if beats(p2.move1, p1.move1) {
        Some(p2.address)
    } else {
        None
    }
}

/// A freshly created room.
pub open spec fn new_room(room_id: u64, room_title: Seq<char>) -> RoomView {
    RoomView {
        player1: None,
        player2: None,
        is_finished: false,
        amount: 0,
        winner: None,
        room_id,
        room_title,
    }
}

/// A play of `player` with stake `amount` gets past the checks.
pub open spec fn play_accepted(room: RoomView, player: PlayerView, amount: u128) -> bool {
    &&& amount != 0
    &&& !room.is_finished
    &&& match room.player1 {
        Some(p1) => p1.address != player.address,
        None => true,
    }
}

/// What a play does to a room, or why it is refused.
pub open spec fn spec_play(room: RoomView, player: PlayerView, amount: u128) -> Result<
    RoomView,
    ContractError,
> {
    if amount == 0 {
        Err(ContractError::NotEnoughCoins)
    } else if room.is_finished {
        Err(ContractError::GameAlreadyFinished)
    } else {
        match room.player1 {
            None => Ok(RoomView { player1: Some(player), amount: (room.amount + amount) as u128, ..room }),
            Some(p1) => if p1.address == player.address {
                Err(ContractError::PlayTwice)
            } else {
                Ok(
                    RoomView {
                        player2: Some(player),
                        amount: (room.amount + amount) as u128,
                        is_finished: true,
                        winner: winner_of(p1, player),
                        ..room
                    },
                )
            },
        }
    }
}

/// The shape that every room keeps: seats fill in order, the game is over
/// exactly when both seats are taken, by two distinct accounts, and then the
/// winner is the one the rules name; an empty room holds no stake.
pub open spec fn room_inv(room: RoomView) -> bool {
    &&& room.player1 is None ==> room.player2 is None && room.amount == 0
    &&& room.is_finished <==> room.player2 is Some
    &&& room.is_finished ==> room.player1 is Some && room.player1->0.address
        != room.player2->0.address && room.winner == winner_of(
        room.player1->0,
        room.player2->0,
    )
    &&& !room.is_finished ==> room.winner is None
}

pub(crate) fn copy_bytes(v: &Vec<u8>) -> (r: Vec<u8>)
    ensures
        r@ == v@,
{
    let mut r: Vec<u8> = Vec::new();
    let mut i: usize = 0;
    while i < v.len()
        invariant
            i <= v.len(),
            r@ == v@.take(i as int),
        decreases v.len() - i,
    {
        r.push(v[i]);
        i += 1;
        assert(r@ =~= v@.take(i as int));
    }
    assert(v@.take(v.len() as int) =~= v@);
    r
}

fn bytes_equal(a: &Vec<u8>, b: &Vec<u8>) -> (r: bool)
    ensures
        r == (a@ == b@),
{
    if a.len() != b.len() {
        return false;
    }
    let mut i: usize = 0;
    while i < a.len()
        invariant
            i <= a.len(),
            a.len() == b.len(),
            forall|j: int| 0 <= j < i ==> a@[j] == b@[j],
        decreases a.len() - i,
    {
        if a[i] != b[i] {
            return false;
        }
        i += 1;
    }
    assert(a@ =~= b@);
    true
}

impl Player {
    fn duplicate(&self) -> (r: Player)
        ensures
            r@ == self@,
    {
        Player { move1: self.move1, address: copy_bytes(&self.address) }
    }
}

fn copy_player(p: &Option<Player>) -> (r: Option<Player>)
    ensures
        opt_player_view(r) == opt_player_view(*p),
{
    match p {
        Some(p) => Some(p.duplicate()),
        None => None,
    }
}

fn copy_address(a: &Option<Vec<u8>>) -> (r: Option<Vec<u8>>)
    ensures
        opt_bytes_view(r) == opt_bytes_view(*a),
{
    match a {
        Some(a) => Some(copy_bytes(a)),
        None => None,
    }
}

impl Room {
    /// An empty room with the given id and title.
    pub fn new(room_id: u64, room_title: String) -> (r: Room)
        ensures
            r@ == new_room(room_id, room_title@),
            r.room_id == room_id,
            r.room_title@ == room_title@,
            r.player1 is None,
            r.player2 is None,
            !r.is_finished,
            r.amount == 0,
            r.winner is None,
    {
        Room {
            player1: None,
            player2: None,
            is_finished: false,
            amount: 0,
            winner: None,
            room_id,
            room_title,
        }
    }

    pub(crate) fn duplicate(&self) -> (r: Room)
        ensures
            r@ == self@,
    {
        Room {
            player1: copy_player(&self.player1),
            player2: copy_player(&self.player2),
            is_finished: self.is_finished,
            amount: self.amount,
            winner: copy_address(&self.winner),
            room_id: self.room_id,
            room_title: self.room_title.clone(),
        }
    }

    /// `player` plays in this room with stake `amount`.
    ///
    /// Refused without a stake, in a finished room, and when the first
    /// player plays again; otherwise the player takes the next free seat,
    /// the stake joins the pot, and the second seat ends the game with the
    /// winner that the rules name. A refused play changes nothing.
    pub fn play(&mut self, player: Player, amount: u128) -> (r: Result<(), ContractError>)
        requires
            play_accepted(old(self)@, player@, amount) ==> old(self).amount + amount
                <= u128::MAX,
        ensures
            match spec_play(old(self)@, player@, amount) {
                Ok(room) => r is Ok && final(self)@ == room,
                Err(e) => r == Err::<(), ContractError>(e) && final(self)@ == old(self)@,
            },
            amount == 0 ==> r == Err::<(), ContractError>(ContractError::NotEnoughCoins)
                && final(self)@ == old(self)@,
            amount != 0 && old(self).is_finished ==> r == Err::<(), ContractError>(
                ContractError::GameAlreadyFinished,
            ) && final(self)@ == old(self)@,
            r is Ok ==> final(self).amount == old(self).amount + amount && final(self).room_id
                == old(self).room_id && final(self).room_title@ == old(self).room_title@,
    {
        if amount == 0 {
            return Err(ContractError::NotEnoughCoins);
        }
        if self.is_finished {
            return Err(ContractError::GameAlreadyFinished);
        }
        match &self.player1 {
            None => {
                self.player1 = Some(player);
                self.amount = self.amount + amount;
                Ok(())
            },
            Some(first) => {
                if bytes_equal(&first.address, &player.address) {
                    return Err(ContractError::PlayTwice);
                }
                let first = first.duplicate();
                let second = player.duplicate();
                self.player2 = Some(player);
                self.amount = self.amount + amount;
                self.is_finished = true;
                self.winner = Self::calculate_winner(first, second);
                Ok(())
            },
        }
    }

    /// The address of the player whose move wins; `None` on a draw.
    pub fn calculate_winner(player1: Player, player2: Player) -> (w: Option<Vec<u8>>)
        ensures
            opt_bytes_view(w) == winner_of(player1@, player2@),
            player1.move1 == player2.move1 ==> w is None,
            (player1.move1 == Move::Paper && player2.move1 == Move::Rock) || (player1.move1
                == Move::Rock && player2.move1 == Move::Scissors) || (player1.move1
                == Move::Scissors && player2.move1 == Move::Paper) ==> (w matches Some(a) && a@
                == player1.address@),
            (player2.move1 == Move::Paper && player1.move1 == Move::Rock) || (player2.move1
                == Move::Rock && player1.move1 == Move::Scissors) || (player2.move1
                == Move::Scissors && player1.move1 == Move::Paper) ==> (w matches Some(a) && a@
                == player2.address@),
    {
        match (player1.move1, player2.move1) {
            (Move::Rock, Move::Rock) | (Move::Paper, Move::Paper) | (
                Move::Scissors,
                Move::Scissors,
            ) => None,
            (Move::Paper, Move::Rock) | (Move::Rock, Move::Scissors) | (
                Move::Scissors,
                Move::Paper,
            ) => Some(player1.address),
            (Move::Rock, Move::Paper) | (Move::Scissors, Move::Rock) | (
                Move::Paper,
                Move::Scissors,
            ) => Some(player2.address),
        }
    }
}


// ---------------------------------------------------------------------------
// The contract's persistent state

/// What the contract keeps between requests: the counter from which room
/// ids are drawn, the list of rooms in order of creation, and the token
/// configuration. Each part is absent until it is first written.
pub struct State {
    pub total: Option<u64>,
    pub rooms: Option<Vec<Room>>,
    pub config: Option<SnipState>,
}

pub struct StateView {
    pub total: Option<u64>,
    pub rooms: Option<Seq<RoomView>>,
    pub config: Option<SnipStateView>,
}

impl View for State {
    type V = StateView;

    open spec fn view(&self) -> StateView {
        StateView {
            total: self.total,
            rooms: match self.rooms {
                Some(v) => Some(rooms_view(v@)),
                None => None,
            },
            config: match self.config {
                Some(c) => Some(c@),
                None => None,
            },
        }
    }
}

/// The rooms held in the state; none when the list was never created.
pub open spec fn stored_rooms(s: StateView) -> Seq<RoomView> {
    match s.rooms {
        Some(r) => r,
        None => Seq::empty(),
    }
}

/// The list of rooms counts its entries in a `u32`, so it never holds more.
pub open spec fn state_fits(s: StateView) -> bool {
    stored_rooms(s).len() <= u32::MAX
}

/// The state after the list of rooms has been opened for writing: an absent
/// list is created empty.
pub open spec fn open_rooms(s: StateView) -> StateView {
    StateView { rooms: Some(stored_rooms(s)), ..s }
}

pub open spec fn has_room(rooms: Seq<RoomView>, room_id: u64) -> bool {
    exists|i: int| 0 <= i < rooms.len() && #[trigger] rooms[i].room_id == room_id
}

/// `i` is the first position of a room with id `room_id`.
pub open spec fn first_room_at(rooms: Seq<RoomView>, room_id: u64, i: int) -> bool {
    &&& 0 <= i < rooms.len()
    &&& rooms[i].room_id == room_id
    &&& forall|j: int| 0 <= j < i ==> #[trigger] rooms[j].room_id != room_id
}

/// The position of the first room with id `room_id` (meaningful when there
/// is one).
pub open spec fn room_position(rooms: Seq<RoomView>, room_id: u64) -> int {
    choose|i: int| first_room_at(rooms, room_id, i)
}

/// The first room with id `room_id`, or why there is none.
pub open spec fn lookup_room(rooms: Seq<RoomView>, room_id: u64) -> Result<RoomView, ContractError> {
    if has_room(rooms, room_id) {
        Ok(rooms[room_position(rooms, room_id)])
    } else {
        Err(ContractError::RoomNotFound)
    }
}

/// What reading a room from a state gives.
pub open spec fn spec_read_room(s: StateView, room_id: u64) -> Result<RoomView, ContractError> {
    match s.rooms {
        None => Err(ContractError::RoomsNotCreated),
        Some(rooms) => lookup_room(rooms, room_id),
    }
}

/// The state after the first room with id `room_id` is replaced by `room`
/// (unchanged but for an opened list when there is no such room).
pub open spec fn spec_update_room(s: StateView, room_id: u64, room: RoomView) -> StateView {
    let rooms = stored_rooms(s);
    if has_room(rooms, room_id) {
        StateView { rooms: Some(rooms.update(room_position(rooms, room_id), room)), ..s }
    } else {
        open_rooms(s)
    }
}

/// The state after a room titled `title` is created: it gets the current
/// counter as its id, the counter moves on, and the room joins the end of
/// the list.
pub open spec fn spec_create_room(s: StateView, title: Seq<char>) -> StateView {
    let id = s.total->0;
    StateView {
        total: Some((id + 1) as u64),
        rooms: Some(stored_rooms(s).push(new_room(id, title))),
        ..s
    }
}

/// The number of titles skipped before page `page_num` of `num_of_items`.
pub open spec fn page_start(page_num: u64, num_of_items: u64) -> int {
    (page_num - 1) * num_of_items
}

/// The titles of the rooms on page `page_num` (counted from 1) when pages
/// hold `num_of_items` titles, in order of creation.
pub open spec fn page_titles(rooms: Seq<RoomView>, page_num: u64, num_of_items: u64) -> Seq<
    Seq<char>,
> {
    let start = page_start(page_num, num_of_items);
    let lo = if start < rooms.len() { start } else { rooms.len() as int };
    let hi = if start + num_of_items < rooms.len() { start + num_of_items } else { rooms.len() as int };
    rooms.subrange(lo, hi).map_values(|r: RoomView| r.room_title)
}

/// The page arguments are usable: pages count from 1, and the number of
/// skipped titles and the page size fit the machine's sizes.
pub open spec fn page_args_ok(page_num: u64, num_of_items: u64) -> bool {
    &&& page_num >= 1
    &&& page_start(page_num, num_of_items) <= u64::MAX
    &&& page_start(page_num, num_of_items) <= usize::MAX
    &&& num_of_items <= usize::MAX
}

pub open spec fn room_result(r: Result<Room, ContractError>, expected: Result<RoomView, ContractError>) -> bool {
    match expected {
        Ok(v) => r matches Ok(room) && room@ == v,
        Err(e) => r == Err::<Room, ContractError>(e),
    }
}

/// Every room that matches has a first one.
pub proof fn lemma_first_room_exists(rooms: Seq<RoomView>, room_id: u64, k: int)
    requires
        0 <= k < rooms.len(),
        rooms[k].room_id == room_id,
    ensures
        exists|i: int| first_room_at(rooms, room_id, i),
    decreases k,
{
    if exists|j: int| 0 <= j < k && #[trigger] rooms[j].room_id == room_id {
        let j = choose|j: int| 0 <= j < k && #[trigger] rooms[j].room_id == room_id;
        lemma_first_room_exists(rooms, room_id, j);
    } else {
        assert(first_room_at(rooms, room_id, k));
    }
}

/// The first match is unique, so it is the one that `room_position` names.
pub proof fn lemma_room_position(rooms: Seq<RoomView>, room_id: u64, i: int)
    requires
        first_room_at(rooms, room_id, i),
    ensures
        has_room(rooms, room_id),
        room_position(rooms, room_id) == i,
{
    let p = room_position(rooms, room_id);
    assert(first_room_at(rooms, room_id, p));
    if p < i {
        assert(rooms[p].room_id != room_id);
    } else if i < p {
        assert(rooms[i].room_id != room_id);
    }
}

fn position_of(rooms: &Vec<Room>, room_id: u64) -> (r: Option<usize>)
    ensures
        match r {
            Some(i) => first_room_at(rooms_view(rooms@), room_id, i as int) && room_position(
                rooms_view(rooms@),
                room_id,
            ) == i,
            None => !has_room(rooms_view(rooms@), room_id),
        },
{
    let ghost rv = rooms_view(rooms@);
    let mut i: usize = 0;
    while i < rooms.len()
        invariant
            i <= rooms.len(),
            rv == rooms_view(rooms@),
            forall|j: int| 0 <= j < i ==> #[trigger] rv[j].room_id != room_id,
        decreases rooms.len() - i,
    {
        assert(rv[i as int] == rooms@[i as int]@);
        if rooms[i].room_id == room_id {
            proof {
                lemma_room_position(rv, room_id, i as int);
            }
            return Some(i);
        }
        i += 1;
    }
    None
}

fn lookup(rooms: &Vec<Room>, room_id: u64) -> (r: Result<Room, ContractError>)
    ensures
        room_result(r, lookup_room(rooms_view(rooms@), room_id)),
{
    match position_of(rooms, room_id) {
        Some(i) => Ok(rooms[i].duplicate()),
        None => Err(ContractError::RoomNotFound),
    }
}

impl State {
    /// Takes the list of rooms out for writing; an absent list comes out
    /// empty.
    fn take_rooms(&mut self) -> (rooms: Vec<Room>)
        ensures
            rooms_view(rooms@) == stored_rooms(old(self)@),
            final(self).total == old(self).total,
            final(self).config == old(self).config,
    {
        match self.rooms.take() {
            Some(rooms) => rooms,
            None => {
                let rooms: Vec<Room> = Vec::new();
                assert(rooms_view(rooms@) =~= Seq::<RoomView>::empty());
                rooms
            },
        }
    }
}

pub open spec fn titles_view(titles: Seq<String>) -> Seq<Seq<char>> {
    titles.map_values(|t: String| t@)
}

impl Room {
    /// The first room with id `room_id`, read for a change: the list of
    /// rooms is created empty if it did not exist yet.
    pub fn get_room(state: &mut State, room_id: u64) -> (r: Result<Room, ContractError>)
        ensures
            final(state)@ == open_rooms(old(state)@),
            room_result(r, lookup_room(stored_rooms(old(state)@), room_id)),
    {
        let rooms = state.take_rooms();
        let r = lookup(&rooms, room_id);
        state.rooms = Some(rooms);
        r
    }

    /// Draws the next room id from the counter and moves the counter on.
    pub fn next_id(state: &mut State) -> (id: u64)
        requires
            old(state).total is Some,
            old(state).total->0 < u64::MAX,
        ensures
            id == old(state).total->0,
            final(state)@ == (StateView { total: Some((id + 1) as u64), ..old(state)@ }),
    {
        let total = match state.total {
            Some(t) => t,
            None => 0,
        };
        state.total = Some(total + 1);
        total
    }

    /// Creates a room titled `room_title` at the end of the list, with the
    /// next id from the counter.
    pub fn create_room(state: &mut State, room_title: String)
        requires
            old(state).total is Some,
            old(state).total->0 < u64::MAX,
            stored_rooms(old(state)@).len() < u32::MAX,
        ensures
            final(state)@ == spec_create_room(old(state)@, room_title@),
    {
        let id = Self::next_id(state);
        let new_room = Self::new(id, room_title);
        let mut rooms = state.take_rooms();
        let ghost before = rooms@;
        rooms.push(new_room);
        assert(rooms_view(rooms@) =~= rooms_view(before).push(new_room@));
        state.rooms = Some(rooms);
    }

    /// Replaces the first room with id `room_id` by `room`; refused when
    /// there is none (the list of rooms is still created if absent).
    pub fn update_room(state: &mut State, room_id: u64, room: &Room) -> (r: Result<(), ContractError>)
        requires
            state_fits(old(state)@),
        ensures
            final(state)@ == spec_update_room(old(state)@, room_id, room@),
            has_room(stored_rooms(old(state)@), room_id) ==> r is Ok,
            !has_room(stored_rooms(old(state)@), room_id) ==> r == Err::<(), ContractError>(
                ContractError::RoomNotFound,
            ),
    {
        let mut rooms = state.take_rooms();
        match position_of(&rooms, room_id) {
            Some(i) => {
                let ghost before = rooms@;
                rooms.set(i, room.duplicate());
                assert(rooms_view(rooms@) =~= rooms_view(before).update(i as int, room@));
                state.rooms = Some(rooms);
                Ok(())
            },
            None => {
                state.rooms = Some(rooms);
                Err(ContractError::RoomNotFound)
            },
        }
    }

    /// The first room with id `room_id`; refused when the list of rooms was
    /// never created or holds no such room.
    pub fn read_room(state: &State, room_id: u64) -> (r: Result<Room, ContractError>)
        ensures
            room_result(r, spec_read_room(state@, room_id)),
    {
        match &state.rooms {
            None => Err(ContractError::RoomsNotCreated),
            Some(rooms) => lookup(rooms, room_id),
        }
    }

    /// The titles on page `page_num` (counted from 1) of `num_of_items`
    /// titles each, in order of creation; refused when the list of rooms was
    /// never created.
    pub fn get_rooms(state: &State, page_num: u64, num_of_items: u64) -> (r: Result<
        Vec<String>,
        ContractError,
    >)
        requires
            state.rooms is Some ==> page_args_ok(page_num, num_of_items),
        ensures
            match state@.rooms {
                None => r == Err::<Vec<String>, ContractError>(ContractError::RoomsNotCreated),
                Some(rooms) => r matches Ok(titles) && titles_view(titles@) == page_titles(
                    rooms,
                    page_num,
                    num_of_items,
                ),
            },
    {
        let rooms = match &state.rooms {
            None => {
                return Err(ContractError::RoomsNotCreated);
            },
            Some(rooms) => rooms,
        };
        let before: u64 = page_num - 1;
        let skip = (before * num_of_items) as usize;
        let take = num_of_items as usize;
        let len = rooms.len();
        let lo = if skip < len {
            skip
        } else {
            len
        };
        let hi = if take < len - lo {
            lo + take
        } else {
            len
        };
        let ghost rv = rooms_view(rooms@);
        let mut titles: Vec<String> = Vec::new();
        let mut i = lo;
        while i < hi
            invariant
                lo <= i <= hi <= len,
                len == rooms.len(),
                rv == rooms_view(rooms@),
                titles_view(titles@) == rv.subrange(lo as int, i as int).map_values(
                    |r: RoomView| r.room_title,
                ),
            decreases hi - i,
        {
            let ghost prev = titles@;
            let title = rooms[i].room_title.clone();
            assert(rv[i as int].room_title == title@);
            titles.push(title);
            assert(titles_view(titles@) =~= titles_view(prev).push(title@));
            assert(titles_view(titles@) =~= rv.subrange(lo as int, i + 1).map_values(
                |r: RoomView| r.room_title,
            ));
            i += 1;
        }
        Ok(titles)
    }
}

} // verus!
