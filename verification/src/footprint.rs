//! The entries of the store that a request concerns.
//!
//! A store may be kept in a table that is too large to hold in memory. A
//! request reads and writes only a few entries of it: the balances of the
//! users and the rooms listed here. A store that holds just these entries
//! gives the same outcome as the whole store, and writing these entries back
//! gives the whole store after the request.

use vstd::prelude::*;
use vstd::string::*;
use crate::error::ErrorView;
use crate::helpers::{create_key_hash, min_required_stake, room_key, winner_gain};
use crate::msg::{
    ExecuteMsg,
    GameRoomStatus,
    QueryMsg,
    QueryView,
    RequestView,
    StatusView,
    UpdateBalanceMode,
    UpdateBalanceView,
};
use crate::state::{Balance, GameRoomView};
use crate::store::{Store, StoreView};

verus! {

/// The texts of a list of strings.
pub open spec fn texts(names: Seq<String>) -> Seq<Seq<char>> {
    names.map_values(|name: String| name@)
}

/// The user that a balance update names, if it names one.
pub open spec fn user_of_update(mode: UpdateBalanceView) -> Seq<Seq<char>> {
    match mode {
        UpdateBalanceView::Deposit { user: Some(user), .. } => seq![user],
        UpdateBalanceView::Withdraw { user: Some(user), .. } => seq![user],
        _ => Seq::empty(),
    }
}

/// The keys of the rooms that a request concerns.
pub open spec fn rooms_of_request(request: RequestView) -> Seq<Seq<char>> {
    match request {
        RequestView::CreateGameRoom { contestant1, contestant2, .. } => seq![
            room_key(contestant1, contestant2),
        ],
        RequestView::FinishGameRoom { key, .. } => seq![key],
        _ => Seq::empty(),
    }
}

/// The users whose balances a request of `sender` concerns. For the end of a
/// room these are the contestants of the room as it is stored, and then the
/// winner that the request names.
pub open spec fn users_of_request(
    store: StoreView,
    sender: Seq<char>,
    request: RequestView,
) -> Seq<Seq<char>> {
    match request {
        RequestView::UpdateBalance { .. } => seq![sender],
        RequestView::CreateGameRoom { contestant1, contestant2, .. } => seq![
            contestant1,
            contestant2,
        ],
        RequestView::FinishGameRoom { key, result } => {
            let contestants = if store.game_rooms.contains_key(key) {
                seq![store.game_rooms[key].contestant1, store.game_rooms[key].contestant2]
            } else {
                Seq::empty()
            };
            match result {
                StatusView::Win { addr } => contestants.push(addr),
                _ => contestants,
            }
        },
        RequestView::CollectFees { .. } => seq![store.admin],
        RequestView::Receive { mode } => user_of_update(mode),
    }
}

/// The keys of the rooms that a query concerns.
pub open spec fn rooms_of_query(query: QueryView) -> Seq<Seq<char>> {
    match query {
        QueryView::GetGameRoomState { key } => seq![key],
        _ => Seq::empty(),
    }
}

/// The users whose balances a query concerns.
pub open spec fn users_of_query(store: StoreView, query: QueryView) -> Seq<Seq<char>> {
    match query {
        QueryView::GetUserBalance { user } => seq![user],
        QueryView::GetUserLockedBalance { user } => seq![user],
        QueryView::GetCollectedFees => seq![store.admin],
        _ => Seq::empty(),
    }
}

/// Lists the keys of the rooms that a query concerns.
pub fn query_rooms(msg: &QueryMsg) -> (keys: Vec<String>)
    ensures
        texts(keys@) == rooms_of_query(msg@),
{
    let mut keys: Vec<String> = Vec::new();
    match msg {
        QueryMsg::GetGameRoomState { game_room_key } => {
            keys.push(game_room_key.clone());
        },
        _ => {},
    }
    assert(texts(keys@) =~= rooms_of_query(msg@));
    keys
}

/// Lists the users whose balances a query concerns.
pub fn query_users(store: &Store, msg: &QueryMsg) -> (users: Vec<String>)
    ensures
        texts(users@) == users_of_query(store@, msg@),
{
    let mut users: Vec<String> = Vec::new();
    match msg {
        QueryMsg::GetUserBalance { user } => {
            users.push(user.clone());
        },
        QueryMsg::GetUserLockedBalance { user } => {
            users.push(user.clone());
        },
        QueryMsg::GetCollectedFees {  } => {
            users.push(store.admin.clone());
        },
        _ => {},
    }
    assert(texts(users@) =~= users_of_query(store@, msg@));
    users
}

/// Lists the keys of the rooms that a request concerns.
pub fn request_rooms(msg: &ExecuteMsg) -> (keys: Vec<String>)
    ensures
        texts(keys@) == rooms_of_request(msg@),
{
    let mut keys: Vec<String> = Vec::new();
    match msg {
        ExecuteMsg::CreateGameRoom { game_room_init_params } => {
            keys.push(
                create_key_hash(
                    game_room_init_params.contestant1.clone(),
                    game_room_init_params.contestant2.clone(),
                ),
            );
        },
        ExecuteMsg::FinishGameRoom { game_room_finish_params } => {
            keys.push(game_room_finish_params.game_room_key.clone());
        },
        _ => {},
    }
    assert(texts(keys@) =~= rooms_of_request(msg@));
    keys
}

/// Lists the users whose balances a request of `sender` concerns. The store
/// must hold the rooms that the request concerns, as far as they exist.
pub fn request_users(store: &Store, sender: &str, msg: &ExecuteMsg) -> (users: Vec<String>)
    ensures
        texts(users@) == users_of_request(store@, sender@, msg@),
{
    let mut users: Vec<String> = Vec::new();
    match msg {
        ExecuteMsg::UpdateBalance { .. } => {
            users.push(String::from_str(sender));
        },
        ExecuteMsg::CreateGameRoom { game_room_init_params } => {
            users.push(game_room_init_params.contestant1.clone());
            users.push(game_room_init_params.contestant2.clone());
        },
        ExecuteMsg::FinishGameRoom { game_room_finish_params } => {
            match store.room(game_room_finish_params.game_room_key.as_str()) {
                Some(room) => {
                    users.push(room.contestant1);
                    users.push(room.contestant2);
                },
                None => {},
            }
            match &game_room_finish_params.result {
                GameRoomStatus::Win { addr } => {
                    users.push(addr.clone());
                },
                _ => {},
            }
        },
        ExecuteMsg::CollectFees { .. } => {
            users.push(store.admin.clone());
        },
        ExecuteMsg::Receive(receive_msg) => {
            match &receive_msg.msg {
                UpdateBalanceMode::Deposit { user: Some(user), .. } => {
                    users.push(user.clone());
                },
                UpdateBalanceMode::Withdraw { user: Some(user), .. } => {
                    users.push(user.clone());
                },
                _ => {},
            }
        },
    }
    assert(texts(users@) =~= users_of_request(store@, sender@, msg@));
    users
}

impl StoreView {
    /// The two stores have the same configuration and count of rooms.
    pub open spec fn same_settings(self, other: StoreView) -> bool {
        &&& self.admin == other.admin
        &&& self.fee == other.fee
        &&& self.enigma_duel_token == other.enigma_duel_token
        &&& self.game_rooms_count == other.game_rooms_count
    }

    /// The two stores hold the same balance for a user, or both hold none.
    pub open spec fn same_balance(self, other: StoreView, user: Seq<char>) -> bool {
        &&& self.balances.contains_key(user) == other.balances.contains_key(user)
        &&& self.balance_of(user) == other.balance_of(user)
    }

    /// The two stores hold the same room under a key, or both hold none.
    pub open spec fn same_room(self, other: StoreView, key: Seq<char>) -> bool {
        &&& self.game_rooms.contains_key(key) == other.game_rooms.contains_key(key)
        &&& self.game_rooms.contains_key(key) ==> self.game_rooms[key] == other.game_rooms[key]
    }

    /// The two stores hold the same for the listed users and room keys.
    pub open spec fn same_entries(
        self,
        other: StoreView,
        users: Seq<Seq<char>>,
        rooms: Seq<Seq<char>>,
    ) -> bool {
        &&& forall|user: Seq<char>| #[trigger]
            users.contains(user) ==> self.same_balance(other, user)
        &&& forall|key: Seq<char>| #[trigger] rooms.contains(key) ==> self.same_room(other, key)
    }

    /// The two stores hold the same for all but the listed users and room
    /// keys.
    pub open spec fn same_elsewhere(
        self,
        other: StoreView,
        users: Seq<Seq<char>>,
        rooms: Seq<Seq<char>>,
    ) -> bool {
        &&& forall|user: Seq<char>|
            !(#[trigger] users.contains(user)) ==> self.same_balance(other, user)
        &&& forall|key: Seq<char>| !(#[trigger] rooms.contains(key)) ==> self.same_room(other, key)
    }
}

/// While a request is carried out on the whole store and on a part of it:
/// the two have the same settings and the same listed entries, and the whole
/// store holds elsewhere what it held at the start.
#[verifier::opaque]
spec fn tracks(
    start: StoreView,
    whole: StoreView,
    part: StoreView,
    users: Seq<Seq<char>>,
    rooms: Seq<Seq<char>>,
) -> bool {
    &&& whole.same_settings(part)
    &&& whole.same_entries(part, users, rooms)
    &&& whole.same_elsewhere(start, users, rooms)
}

/// The outcomes of one step on the whole store and on the part are the same
/// error, or two stores that still track each other.
spec fn same_outcome(
    start: StoreView,
    whole: Result<StoreView, ErrorView>,
    part: Result<StoreView, ErrorView>,
    users: Seq<Seq<char>>,
    rooms: Seq<Seq<char>>,
) -> bool {
    match whole {
        Ok(next) => part is Ok && tracks(start, next, part->Ok_0, users, rooms),
        Err(e) => part == Err::<StoreView, ErrorView>(e),
    }
}

proof fn lemma_tracks_settings(
    start: StoreView,
    whole: StoreView,
    part: StoreView,
    users: Seq<Seq<char>>,
    rooms: Seq<Seq<char>>,
)
    requires
        tracks(start, whole, part, users, rooms),
    ensures
        whole.same_settings(part),
{
    reveal(tracks);
}

proof fn lemma_tracks_same_room(
    start: StoreView,
    whole: StoreView,
    part: StoreView,
    users: Seq<Seq<char>>,
    rooms: Seq<Seq<char>>,
    key: Seq<char>,
)
    requires
        tracks(start, whole, part, users, rooms),
        rooms.contains(key),
    ensures
        whole.same_room(part, key),
{
    reveal(tracks);
}

proof fn lemma_tracks_balance(
    start: StoreView,
    whole: StoreView,
    part: StoreView,
    users: Seq<Seq<char>>,
    rooms: Seq<Seq<char>>,
    user: Seq<char>,
    balance: Balance,
)
    requires
        tracks(start, whole, part, users, rooms),
        users.contains(user),
    ensures
        whole.balance_of(user) == part.balance_of(user),
        tracks(
            start,
            whole.with_balance(user, balance),
            part.with_balance(user, balance),
            users,
            rooms,
        ),
{
    reveal(tracks);
    let next = whole.with_balance(user, balance);
    let part_next = part.with_balance(user, balance);
    assert forall|other: Seq<char>| #[trigger] users.contains(other) implies next.same_balance(
        part_next,
        other,
    ) by {
        assert(whole.same_balance(part, other));
    }
    assert forall|other: Seq<char>| !(#[trigger] users.contains(other)) implies next.same_balance(
        start,
        other,
    ) by {
        assert(whole.same_balance(start, other));
    }
    assert forall|key: Seq<char>| #[trigger] rooms.contains(key) implies next.same_room(
        part_next,
        key,
    ) by {
        assert(whole.same_room(part, key));
    }
    assert forall|key: Seq<char>| !(#[trigger] rooms.contains(key)) implies next.same_room(
        start,
        key,
    ) by {
        assert(whole.same_room(start, key));
    }
}

proof fn lemma_tracks_room(
    start: StoreView,
    whole: StoreView,
    part: StoreView,
    users: Seq<Seq<char>>,
    rooms: Seq<Seq<char>>,
    key: Seq<char>,
    room: GameRoomView,
    count: nat,
)
    requires
        tracks(start, whole, part, users, rooms),
        rooms.contains(key),
    ensures
        whole.same_room(part, key),
        tracks(
            start,
            StoreView {
                game_rooms: whole.game_rooms.insert(key, room),
                game_rooms_count: count,
                ..whole
            },
            StoreView {
                game_rooms: part.game_rooms.insert(key, room),
                game_rooms_count: count,
                ..part
            },
            users,
            rooms,
        ),
{
    reveal(tracks);
    let next = StoreView {
        game_rooms: whole.game_rooms.insert(key, room),
        game_rooms_count: count,
        ..whole
    };
    let part_next = StoreView {
        game_rooms: part.game_rooms.insert(key, room),
        game_rooms_count: count,
        ..part
    };
    assert forall|other: Seq<char>| #[trigger] users.contains(other) implies next.same_balance(
        part_next,
        other,
    ) by {
        assert(whole.same_balance(part, other));
    }
    assert forall|other: Seq<char>| !(#[trigger] users.contains(other)) implies next.same_balance(
        start,
        other,
    ) by {
        assert(whole.same_balance(start, other));
    }
    assert forall|other: Seq<char>| #[trigger] rooms.contains(other) implies next.same_room(
        part_next,
        other,
    ) by {
        assert(whole.same_room(part, other));
    }
    assert forall|other: Seq<char>| !(#[trigger] rooms.contains(other)) implies next.same_room(
        start,
        other,
    ) by {
        assert(whole.same_room(start, other));
    }
}

/// Each change of the balance of a listed user has the same outcome on the
/// whole store and on the part.
proof fn lemma_balance_steps(
    start: StoreView,
    whole: StoreView,
    part: StoreView,
    users: Seq<Seq<char>>,
    rooms: Seq<Seq<char>>,
    user: Seq<char>,
    amount: nat,
    other: nat,
)
    requires
        tracks(start, whole, part, users, rooms),
        users.contains(user),
    ensures
        same_outcome(
            start,
            whole.deposited(user, amount),
            part.deposited(user, amount),
            users,
            rooms,
        ),
        same_outcome(
            start,
            whole.withdrawn(user, amount),
            part.withdrawn(user, amount),
            users,
            rooms,
        ),
        same_outcome(start, whole.locked(user, amount), part.locked(user, amount), users, rooms),
        same_outcome(
            start,
            whole.released_with_gain(user, amount, other),
            part.released_with_gain(user, amount, other),
            users,
            rooms,
        ),
        same_outcome(
            start,
            whole.released_with_loss(user, amount, other),
            part.released_with_loss(user, amount, other),
            users,
            rooms,
        ),
{
    let balance = whole.balance_of(user);
    lemma_tracks_balance(start, whole, part, users, rooms, user, balance);
    if balance.increased(amount) is Some {
        lemma_tracks_balance(start, whole, part, users, rooms, user, balance.increased(amount)->0);
    }
    if balance.decreased(amount) is Some {
        lemma_tracks_balance(start, whole, part, users, rooms, user, balance.decreased(amount)->0);
    }
    if balance.with_locked(amount) is Some {
        lemma_tracks_balance(
            start,
            whole,
            part,
            users,
            rooms,
            user,
            balance.with_locked(amount)->0,
        );
    }
    if balance.released_with_gain(amount, other) is Some {
        lemma_tracks_balance(
            start,
            whole,
            part,
            users,
            rooms,
            user,
            balance.released_with_gain(amount, other)->0,
        );
    }
    if balance.released_with_loss(amount, other) is Some {
        lemma_tracks_balance(
            start,
            whole,
            part,
            users,
            rooms,
            user,
            balance.released_with_loss(amount, other)->0,
        );
    }
}

proof fn lemma_creation_is_local(
    whole: StoreView,
    part: StoreView,
    sender: Seq<char>,
    contestant1: Seq<char>,
    contestant2: Seq<char>,
    prize_pool: nat,
)
    requires
        tracks(
            whole,
            whole,
            part,
            seq![contestant1, contestant2],
            seq![room_key(contestant1, contestant2)],
        ),
    ensures
        same_outcome(
            whole,
            whole.room_created(sender, contestant1, contestant2, prize_pool),
            part.room_created(sender, contestant1, contestant2, prize_pool),
            seq![contestant1, contestant2],
            seq![room_key(contestant1, contestant2)],
        ),
{
    let users = seq![contestant1, contestant2];
    let key = room_key(contestant1, contestant2);
    let rooms = seq![key];
    assert(users[0] == contestant1 && users[1] == contestant2);
    assert(users.contains(contestant1) && users.contains(contestant2));
    assert(rooms[0] == key);
    assert(rooms.contains(key));
    let stake = min_required_stake(prize_pool, whole.fee);
    let room = GameRoomView { contestant1, contestant2, prize_pool, status: StatusView::Started };
    lemma_tracks_settings(whole, whole, part, users, rooms);
    let first = whole.balance_of(contestant1);
    let second = whole.balance_of(contestant2);
    lemma_tracks_balance(whole, whole, part, users, rooms, contestant1, first);
    lemma_tracks_balance(whole, whole, part, users, rooms, contestant2, second);
    lemma_tracks_room(whole, whole, part, users, rooms, key, room, whole.game_rooms_count + 1);
    let opened = StoreView {
        game_rooms: whole.game_rooms.insert(key, room),
        game_rooms_count: whole.game_rooms_count + 1,
        ..whole
    };
    let part_opened = StoreView {
        game_rooms: part.game_rooms.insert(key, room),
        game_rooms_count: part.game_rooms_count + 1,
        ..part
    };
    lemma_balance_steps(whole, opened, part_opened, users, rooms, contestant1, stake, 0);
    if opened.locked(contestant1, stake) is Ok {
        lemma_balance_steps(
            whole,
            opened.locked(contestant1, stake)->Ok_0,
            part_opened.locked(contestant1, stake)->Ok_0,
            users,
            rooms,
            contestant2,
            stake,
            0,
        );
    }
}

proof fn lemma_end_is_local(
    whole: StoreView,
    part: StoreView,
    sender: Seq<char>,
    key: Seq<char>,
    result: StatusView,
)
    requires
        tracks(
            whole,
            whole,
            part,
            users_of_request(part, sender, RequestView::FinishGameRoom { key, result }),
            seq![key],
        ),
    ensures
        whole.same_room(part, key),
        same_outcome(
            whole,
            whole.room_finished(sender, key, result),
            part.room_finished(sender, key, result),
            users_of_request(part, sender, RequestView::FinishGameRoom { key, result }),
            seq![key],
        ),
{
    let users = users_of_request(part, sender, RequestView::FinishGameRoom { key, result });
    let rooms = seq![key];
    assert(rooms[0] == key);
    assert(rooms.contains(key));
    lemma_tracks_settings(whole, whole, part, users, rooms);
    if part.game_rooms.contains_key(key) {
        let room = part.game_rooms[key];
        let count = whole.game_rooms_count;
        lemma_tracks_room(whole, whole, part, users, rooms, key, room.finished(result), count);
        let stake = min_required_stake(room.prize_pool, whole.fee);
        let closed = StoreView {
            game_rooms: whole.game_rooms.insert(key, room.finished(result)),
            game_rooms_count: whole.game_rooms_count,
            ..whole
        };
        let part_closed = StoreView {
            game_rooms: part.game_rooms.insert(key, room.finished(result)),
            game_rooms_count: part.game_rooms_count,
            ..part
        };
        assert(closed == StoreView {
            game_rooms: whole.game_rooms.insert(key, room.finished(result)),
            ..whole
        });
        assert(part_closed == StoreView {
            game_rooms: part.game_rooms.insert(key, room.finished(result)),
            ..part
        });
        assert(users[0] == room.contestant1 && users[1] == room.contestant2);
        assert(users.contains(room.contestant1) && users.contains(room.contestant2));
        match result {
            StatusView::Win { addr } => {
                assert(users[2] == addr);
                assert(users.contains(addr));
                let loser = StoreView::loser_of(room, addr);
                let gain = winner_gain(room.prize_pool, whole.fee);
                lemma_balance_steps(whole, closed, part_closed, users, rooms, addr, stake, gain);
                if closed.released_with_gain(addr, stake, gain) is Ok {
                    lemma_balance_steps(
                        whole,
                        closed.released_with_gain(addr, stake, gain)->Ok_0,
                        part_closed.released_with_gain(addr, stake, gain)->Ok_0,
                        users,
                        rooms,
                        loser,
                        stake,
                        stake,
                    );
                }
            },
            _ => {
                let first = room.contestant1;
                lemma_balance_steps(whole, closed, part_closed, users, rooms, first, stake, 0);
                if closed.released_with_loss(room.contestant1, stake, 0) is Ok {
                    lemma_balance_steps(
                        whole,
                        closed.released_with_loss(room.contestant1, stake, 0)->Ok_0,
                        part_closed.released_with_loss(room.contestant1, stake, 0)->Ok_0,
                        users,
                        rooms,
                        room.contestant2,
                        stake,
                        0,
                    );
                }
            },
        }
    } else {
        lemma_tracks_same_room(whole, whole, part, users, rooms, key);
    }
}

/// A query concerns only its entries: a part of the store that has the same
/// settings and holds the same for the entries of the query gives the answer
/// of the whole store.
pub proof fn lemma_query_concerns_its_entries(whole: StoreView, part: StoreView, query: QueryView)
    requires
        whole.same_settings(part),
        whole.same_entries(part, users_of_query(part, query), rooms_of_query(query)),
    ensures
        whole.answered(query) == part.answered(query),
{
    let users = users_of_query(part, query);
    let rooms = rooms_of_query(query);
    match query {
        QueryView::GetUserBalance { user } => {
            assert(users[0] == user);
            assert(users.contains(user));
        },
        QueryView::GetUserLockedBalance { user } => {
            assert(users[0] == user);
            assert(users.contains(user));
        },
        QueryView::GetGameRoomState { key } => {
            assert(rooms[0] == key);
            assert(rooms.contains(key));
        },
        QueryView::GetCollectedFees => {
            assert(users[0] == part.admin);
            assert(users.contains(part.admin));
        },
        QueryView::GetTotalGames => {},
    }
}

/// A request concerns only its entries. Take the whole store and a part of
/// it that has the same settings and holds the same for the entries of the
/// request. Then the request has the same outcome on both: the same error, or
/// success with the same settings and the same entries afterwards. What the
/// whole store holds elsewhere is not changed.
pub proof fn lemma_request_concerns_its_entries(
    whole: StoreView,
    part: StoreView,
    sender: Seq<char>,
    request: RequestView,
)
    requires
        whole.same_settings(part),
        whole.same_entries(
            part,
            users_of_request(part, sender, request),
            rooms_of_request(request),
        ),
    ensures
        users_of_request(whole, sender, request) == users_of_request(part, sender, request),
        match whole.executed(sender, request) {
            Ok(next) => {
                &&& part.executed(sender, request) is Ok
                &&& next.same_settings(part.executed(sender, request)->Ok_0)
                &&& next.same_entries(
                    part.executed(sender, request)->Ok_0,
                    users_of_request(part, sender, request),
                    rooms_of_request(request),
                )
                &&& next.same_elsewhere(
                    whole,
                    users_of_request(part, sender, request),
                    rooms_of_request(request),
                )
            },
            Err(e) => part.executed(sender, request) == Err::<StoreView, ErrorView>(e),
        },
{
    let users = users_of_request(part, sender, request);
    let rooms = rooms_of_request(request);
    assert(tracks(whole, whole, part, users, rooms)) by {
        reveal(tracks);
    }
    assert(same_outcome(
        whole,
        whole.executed(sender, request),
        part.executed(sender, request),
        users,
        rooms,
    ) && users_of_request(whole, sender, request) == users) by {
        match request {
            RequestView::UpdateBalance { mode } => {
                assert(users[0] == sender);
                assert(users.contains(sender));
                match mode {
                    UpdateBalanceView::Withdraw { amount, .. } => {
                        lemma_balance_steps(whole, whole, part, users, rooms, sender, amount, 0);
                    },
                    _ => {},
                }
            },
            RequestView::CreateGameRoom { contestant1, contestant2, prize_pool } => {
                lemma_creation_is_local(whole, part, sender, contestant1, contestant2, prize_pool);
            },
            RequestView::FinishGameRoom { key, result } => {
                lemma_end_is_local(whole, part, sender, key, result);
            },
            RequestView::CollectFees { amount, .. } => {
                assert(users[0] == part.admin);
                assert(users.contains(part.admin));
                lemma_tracks_settings(whole, whole, part, users, rooms);
                lemma_balance_steps(whole, whole, part, users, rooms, part.admin, amount, 0);
            },
            RequestView::Receive { mode } => {
                lemma_tracks_settings(whole, whole, part, users, rooms);
                match mode {
                    UpdateBalanceView::Deposit { user: Some(user), amount } => {
                        assert(users[0] == user);
                        assert(users.contains(user));
                        lemma_balance_steps(whole, whole, part, users, rooms, user, amount, 0);
                    },
                    UpdateBalanceView::Withdraw { user: Some(user), amount, .. } => {
                        assert(users[0] == user);
                        assert(users.contains(user));
                        lemma_balance_steps(whole, whole, part, users, rooms, user, amount, 0);
                    },
                    _ => {},
                }
            },
        }
    }
    reveal(tracks);
}

} // verus!
