//! What holds of the transitions of the store, whatever the store and the
//! request.
//!
//! The executable operations follow the transitions exactly, so each
//! statement here is a statement about what the operations do.

use vstd::prelude::*;
use crate::error::ErrorView;
use crate::footprint::users_of_request;
use crate::helpers::{
    lemma_winner_gain_is_stake,
    min_required_stake,
    room_key,
    winner_gain,
};
use crate::msg::{RequestView, StatusView, UpdateBalanceView};
use crate::state::{Balance, GameRoomView};
use crate::store::StoreView;

verus! {

/// A deposit or a withdrawal of one user.
pub enum Movement {
    Deposit { user: Seq<char>, amount: nat },
    Withdrawal { user: Seq<char>, amount: nat },
}

impl StoreView {
    /// The store after one movement.
    pub open spec fn moved(self, movement: Movement) -> Result<StoreView, ErrorView> {
        match movement {
            Movement::Deposit { user, amount } => self.deposited(user, amount),
            Movement::Withdrawal { user, amount } => self.withdrawn(user, amount),
        }
    }

    /// The store after a sequence of movements, the first one first. The
    /// sequence is rejected as soon as one movement is.
    pub open spec fn moved_all(self, movements: Seq<Movement>) -> Result<StoreView, ErrorView>
        decreases movements.len(),
    {
        if movements.len() == 0 {
            Ok(self)
        } else {
            match self.moved_all(movements.drop_last()) {
                Ok(store) => store.moved(movements.last()),
                Err(e) => Err(e),
            }
        }
    }
}

/// What a movement adds to the total of `user`: the amount of a deposit of
/// that user, the negated amount of a withdrawal of that user, and nothing
/// for the movement of someone else.
pub open spec fn movement_of(movement: Movement, user: Seq<char>) -> int {
    match movement {
        Movement::Deposit { user: who, amount } => if who == user {
            amount as int
        } else {
            0
        },
        Movement::Withdrawal { user: who, amount } => if who == user {
            -(amount as int)
        } else {
            0
        },
    }
}

/// The deposits of `user` less the withdrawals of `user`.
pub open spec fn net_movement(movements: Seq<Movement>, user: Seq<char>) -> int
    decreases movements.len(),
{
    if movements.len() == 0 {
        0
    } else {
        net_movement(movements.drop_last(), user) + movement_of(movements.last(), user)
    }
}

/// After any sequence of deposits and withdrawals that is carried out in
/// full, the total of every user is the total before, plus that user's
/// deposits, less that user's withdrawals. What is locked does not change.
/// No token appears or disappears.
pub proof fn lemma_movements_conserve(store: StoreView, movements: Seq<Movement>, user: Seq<char>)
    requires
        store.moved_all(movements) is Ok,
    ensures
        store.moved_all(movements)->Ok_0.balance_of(user).total == store.balance_of(user).total
            + net_movement(movements, user),
        store.moved_all(movements)->Ok_0.balance_of(user).locked == store.balance_of(user).locked,
    decreases movements.len(),
{
    if movements.len() > 0 {
        lemma_movements_conserve(store, movements.drop_last(), user);
    }
}

/// A lock followed by a release of the same amount leaves as much locked as
/// before the lock, whatever is gained or lost with the release. A release
/// of more than is locked is rejected, so the locked part never falls below
/// zero.
pub proof fn lemma_lock_then_release(balance: Balance, amount: nat, change: nat)
    requires
        balance.with_locked(amount) is Some,
    ensures
        balance.with_locked(amount)->0.released_with_gain(amount, change) matches Some(after)
            ==> after.locked == balance.locked,
        balance.with_locked(amount)->0.released_with_loss(amount, change) matches Some(after)
            ==> after.locked == balance.locked,
        forall|more: nat|
            more > balance.locked ==> balance.released_with_gain(more, change) is None,
        forall|more: nat|
            more > balance.locked ==> balance.released_with_loss(more, change) is None,
{
}

/// The same for the balance of a user in a store: a lock followed by a
/// release of the same amount leaves as much locked as before.
pub proof fn lemma_lock_then_release_in_store(
    store: StoreView,
    user: Seq<char>,
    amount: nat,
    change: nat,
)
    requires
        store.locked(user, amount) is Ok,
    ensures
        store.locked(user, amount)->Ok_0.released_with_gain(user, amount, change) matches Ok(after)
            ==> after.balance_of(user).locked == store.balance_of(user).locked,
        store.locked(user, amount)->Ok_0.released_with_loss(user, amount, change) matches Ok(after)
            ==> after.balance_of(user).locked == store.balance_of(user).locked,
{
}

/// Every change of a balance keeps the locked part within the total.
pub proof fn lemma_balance_stays_sound(balance: Balance, amount: nat, other: nat)
    requires
        balance.wf(),
    ensures
        balance.increased(amount) matches Some(after) ==> after.wf(),
        balance.decreased(amount) matches Some(after) ==> after.wf(),
        balance.with_locked(amount) matches Some(after) ==> after.wf(),
        balance.released_with_gain(amount, other) matches Some(after) ==> after.wf(),
        balance.released_with_loss(amount, other) matches Some(after) ==> after.wf(),
{
}

/// A new ledger locks no more than it holds in any balance, and every
/// request keeps it so: if the locked part of every balance is within its
/// total, the same holds after any request.
pub proof fn lemma_requests_keep_balances_sound(
    store: StoreView,
    sender: Seq<char>,
    request: RequestView,
)
    ensures
        StoreView::instantiated(store.fee, store.admin, store.enigma_duel_token).wf(),
        store.wf() && store.executed(sender, request) is Ok ==> store.executed(
            sender,
            request,
        )->Ok_0.wf(),
{
}

/// No request changes the administrator, the fee or the token contract. The
/// count of rooms grows by one with every room that is opened, and changes
/// with no other request.
pub proof fn lemma_settings_are_fixed(store: StoreView, sender: Seq<char>, request: RequestView)
    requires
        store.executed(sender, request) is Ok,
    ensures
        store.executed(sender, request)->Ok_0.admin == store.admin,
        store.executed(sender, request)->Ok_0.fee == store.fee,
        store.executed(sender, request)->Ok_0.enigma_duel_token == store.enigma_duel_token,
        store.executed(sender, request)->Ok_0.game_rooms_count == store.game_rooms_count + (
        if request is CreateGameRoom {
            1nat
        } else {
            0nat
        }),
{
}

/// A request for a room, for its end or for fees from anyone but the
/// administrator is rejected as unauthorized, whatever else it asks for.
pub proof fn lemma_only_the_admin(
    store: StoreView,
    sender: Seq<char>,
    contestant1: Seq<char>,
    contestant2: Seq<char>,
    prize_pool: nat,
    key: Seq<char>,
    result: StatusView,
    amount: nat,
)
    requires
        sender != store.admin,
    ensures
        store.room_created(sender, contestant1, contestant2, prize_pool) == Err::<
            StoreView,
            ErrorView,
        >(ErrorView::Unauthorized),
        store.room_finished(sender, key, result) == Err::<StoreView, ErrorView>(
            ErrorView::Unauthorized,
        ),
        store.fees_collected(sender, amount) == Err::<StoreView, ErrorView>(
            ErrorView::Unauthorized,
        ),
{
}

/// A confirmation from anyone but the registered token contract is rejected
/// as unauthorized, whatever it confirms.
pub proof fn lemma_only_the_token_contract(
    store: StoreView,
    sender: Seq<char>,
    mode: UpdateBalanceView,
)
    requires
        sender != store.enigma_duel_token,
    ensures
        store.balance_confirmed(sender, mode) == Err::<StoreView, ErrorView>(
            ErrorView::Unauthorized,
        ),
{
}

/// What the opening of a room does: the stake is locked in the balance of
/// each contestant (twice in the balance of one who plays against
/// themselves), no total changes, nobody else's balance changes, the room is
/// stored as `Started` with its prize pool, and one more room is counted.
pub proof fn lemma_creation_locks_stakes(
    store: StoreView,
    sender: Seq<char>,
    contestant1: Seq<char>,
    contestant2: Seq<char>,
    prize_pool: nat,
    user: Seq<char>,
)
    requires
        store.room_created(sender, contestant1, contestant2, prize_pool) is Ok,
    ensures
        ({
            let after = store.room_created(sender, contestant1, contestant2, prize_pool)->Ok_0;
            let stake = min_required_stake(prize_pool, store.fee);
            let times: nat = if user == contestant1 && user == contestant2 {
                2
            } else if user == contestant1 || user == contestant2 {
                1
            } else {
                0
            };
            &&& after.balance_of(user).total == store.balance_of(user).total
            &&& after.balance_of(user).locked == store.balance_of(user).locked + times * stake
            &&& after.game_rooms_count == store.game_rooms_count + 1
            &&& after.game_rooms[room_key(contestant1, contestant2)] == (GameRoomView {
                contestant1,
                contestant2,
                prize_pool,
                status: StatusView::Started,
            })
            &&& after.room_is_started(room_key(contestant1, contestant2))
        }),
{
}

/// A win moves the stake of the loser to the winner and changes no other
/// total: the totals of all users together are what they were. The stake of
/// each of the two is released. The room is stored with the result and an
/// empty prize pool.
pub proof fn lemma_win_moves_the_stake(
    store: StoreView,
    sender: Seq<char>,
    key: Seq<char>,
    winner: Seq<char>,
    user: Seq<char>,
)
    requires
        store.room_finished(sender, key, StatusView::Win { addr: winner }) is Ok,
    ensures
        ({
            let after = store.room_finished(sender, key, StatusView::Win { addr: winner })->Ok_0;
            let room = store.game_rooms[key];
            let loser = StoreView::loser_of(room, winner);
            let stake = min_required_stake(room.prize_pool, store.fee);
            let gain: int = if user == winner {
                stake as int
            } else {
                0
            };
            let loss: int = if user == loser {
                stake as int
            } else {
                0
            };
            let times: nat = if user == winner && user == loser {
                2
            } else if user == winner || user == loser {
                1
            } else {
                0
            };
            &&& winner_gain(room.prize_pool, store.fee) == stake
            &&& after.balance_of(user).total == store.balance_of(user).total + gain - loss
            &&& after.balance_of(user).locked == store.balance_of(user).locked - times * stake
            &&& after.game_rooms[key] == room.finished(StatusView::Win { addr: winner })
            &&& after.game_rooms[key].prize_pool == 0
            &&& after.game_rooms_count == store.game_rooms_count
        }),
{
    let room = store.game_rooms[key];
    lemma_winner_gain_is_stake(room.prize_pool, store.fee);
}

/// A draw releases the stake of each contestant and changes no total. The
/// room is stored as `Draw` with an empty prize pool.
pub proof fn lemma_draw_changes_no_total(
    store: StoreView,
    sender: Seq<char>,
    key: Seq<char>,
    user: Seq<char>,
)
    requires
        store.room_finished(sender, key, StatusView::Draw) is Ok,
    ensures
        ({
            let after = store.room_finished(sender, key, StatusView::Draw)->Ok_0;
            let room = store.game_rooms[key];
            let stake = min_required_stake(room.prize_pool, store.fee);
            let times: nat = if user == room.contestant1 && user == room.contestant2 {
                2
            } else if user == room.contestant1 || user == room.contestant2 {
                1
            } else {
                0
            };
            &&& after.balance_of(user).total == store.balance_of(user).total
            &&& after.balance_of(user).locked == store.balance_of(user).locked - times * stake
            &&& after.game_rooms[key] == room.finished(StatusView::Draw)
            &&& after.game_rooms_count == store.game_rooms_count
        }),
{
}

/// A room that has just been opened can be finished as a draw, and the draw
/// gives every user the balance from before the room was opened, the total
/// and the locked part.
pub proof fn lemma_draw_undoes_creation(
    store: StoreView,
    sender: Seq<char>,
    contestant1: Seq<char>,
    contestant2: Seq<char>,
    prize_pool: nat,
    user: Seq<char>,
)
    requires
        store.room_created(sender, contestant1, contestant2, prize_pool) is Ok,
    ensures
        ({
            let opened = store.room_created(sender, contestant1, contestant2, prize_pool)->Ok_0;
            let closed = opened.room_finished(
                sender,
                room_key(contestant1, contestant2),
                StatusView::Draw,
            );
            &&& closed is Ok
            &&& closed->Ok_0.balance_of(user) == store.balance_of(user)
            &&& closed->Ok_0.game_rooms[room_key(contestant1, contestant2)].status is Draw
        }),
{
    lemma_creation_locks_stakes(store, sender, contestant1, contestant2, prize_pool, contestant1);
    lemma_creation_locks_stakes(store, sender, contestant1, contestant2, prize_pool, contestant2);
    lemma_creation_locks_stakes(store, sender, contestant1, contestant2, prize_pool, user);
    let opened = store.room_created(sender, contestant1, contestant2, prize_pool)->Ok_0;
    let key = room_key(contestant1, contestant2);
    assert(opened.room_finished(sender, key, StatusView::Draw) is Ok);
    lemma_draw_changes_no_total(opened, sender, key, user);
}

/// A room that has just been opened for two different contestants can be
/// finished as a win of either, unless the winner's total would leave the
/// range of the amounts. The winner then holds the stake more than before
/// the room was opened, the loser the stake less, and both have as much
/// locked as before.
pub proof fn lemma_win_after_creation(
    store: StoreView,
    sender: Seq<char>,
    contestant1: Seq<char>,
    contestant2: Seq<char>,
    prize_pool: nat,
    winner: Seq<char>,
)
    requires
        store.room_created(sender, contestant1, contestant2, prize_pool) is Ok,
        contestant1 != contestant2,
        winner == contestant1 || winner == contestant2,
        store.balance_of(winner).total + min_required_stake(prize_pool, store.fee) <= u128::MAX,
    ensures
        ({
            let opened = store.room_created(sender, contestant1, contestant2, prize_pool)->Ok_0;
            let closed = opened.room_finished(
                sender,
                room_key(contestant1, contestant2),
                StatusView::Win { addr: winner },
            );
            let loser = if winner == contestant1 {
                contestant2
            } else {
                contestant1
            };
            let stake = min_required_stake(prize_pool, store.fee);
            &&& closed is Ok
            &&& closed->Ok_0.balance_of(winner).total == store.balance_of(winner).total + stake
            &&& closed->Ok_0.balance_of(loser).total == store.balance_of(loser).total - stake
            &&& closed->Ok_0.balance_of(winner).locked == store.balance_of(winner).locked
            &&& closed->Ok_0.balance_of(loser).locked == store.balance_of(loser).locked
        }),
{
    let loser = if winner == contestant1 {
        contestant2
    } else {
        contestant1
    };
    lemma_creation_locks_stakes(store, sender, contestant1, contestant2, prize_pool, winner);
    lemma_creation_locks_stakes(store, sender, contestant1, contestant2, prize_pool, loser);
    lemma_winner_gain_is_stake(prize_pool, store.fee);
    let opened = store.room_created(sender, contestant1, contestant2, prize_pool)->Ok_0;
    let key = room_key(contestant1, contestant2);
    assert(opened.room_finished(sender, key, StatusView::Win { addr: winner }) is Ok);
    lemma_win_moves_the_stake(opened, sender, key, winner, winner);
    lemma_win_moves_the_stake(opened, sender, key, winner, loser);
}

/// While the room of a pair of contestants is running, no second room can be
/// opened for the pair: a request that is authorized, has a sufficient prize
/// pool and finds the stake available with both contestants is rejected as
/// `GameRoomAlreadyStarted`.
pub proof fn lemma_running_room_blocks_creation(
    store: StoreView,
    sender: Seq<char>,
    contestant1: Seq<char>,
    contestant2: Seq<char>,
    prize_pool: nat,
)
    requires
        store.room_is_started(room_key(contestant1, contestant2)),
        sender == store.admin,
        prize_pool >= 2 * store.fee,
        store.balance_of(contestant1).available() >= min_required_stake(prize_pool, store.fee),
        store.balance_of(contestant2).available() >= min_required_stake(prize_pool, store.fee),
    ensures
        store.room_created(sender, contestant1, contestant2, prize_pool) == Err::<
            StoreView,
            ErrorView,
        >(ErrorView::GameRoomAlreadyStarted),
{
}

/// Once the room of a pair of contestants is finished, a new room can be
/// opened for the pair: the request succeeds if it is authorized, has a
/// sufficient prize pool, finds the stake available with both contestants
/// (twice with one who plays against themselves) and the count of rooms can
/// still grow. The new room takes the place of the finished one.
pub proof fn lemma_finished_room_can_be_reopened(
    store: StoreView,
    sender: Seq<char>,
    contestant1: Seq<char>,
    contestant2: Seq<char>,
    result: StatusView,
    prize_pool: nat,
)
    requires
        store.room_finished(sender, room_key(contestant1, contestant2), result) is Ok,
        ({
            let key = room_key(contestant1, contestant2);
            let closed = store.room_finished(sender, key, result)->Ok_0;
            let stake = min_required_stake(prize_pool, closed.fee);
            &&& prize_pool >= 2 * closed.fee
            &&& closed.balance_of(contestant1).available() >= stake
            &&& closed.balance_of(contestant2).available() >= stake
            &&& contestant1 == contestant2 ==> closed.balance_of(contestant1).available() >= 2
                * stake
            &&& closed.game_rooms_count < u128::MAX
        }),
    ensures
        ({
            let key = room_key(contestant1, contestant2);
            let closed = store.room_finished(sender, key, result)->Ok_0;
            let reopened = closed.room_created(sender, contestant1, contestant2, prize_pool);
            &&& !closed.room_is_started(room_key(contestant1, contestant2))
            &&& reopened is Ok
            &&& reopened->Ok_0.game_rooms[room_key(contestant1, contestant2)] == (GameRoomView {
                contestant1,
                contestant2,
                prize_pool,
                status: StatusView::Started,
            })
        }),
{
}

/// The totals of the listed users together.
pub open spec fn sum_of_totals(store: StoreView, users: Seq<Seq<char>>) -> int
    decreases users.len(),
{
    if users.len() == 0 {
        0
    } else {
        sum_of_totals(store, users.drop_last()) + store.balance_of(users.last()).total
    }
}

/// The tokens that a request adds to the balances of the ledger: the amount
/// of a confirmed deposit, the negated amount of a withdrawal or of a
/// collection of fees, and nothing for the opening or the end of a room.
pub open spec fn net_inflow(request: RequestView) -> int {
    match request {
        RequestView::UpdateBalance { mode: UpdateBalanceView::Withdraw { amount, .. } } => -(
        amount as int),
        RequestView::Receive { mode: UpdateBalanceView::Deposit { amount, .. } } => amount as int,
        RequestView::Receive { mode: UpdateBalanceView::Withdraw { amount, .. } } => -(
        amount as int),
        RequestView::CollectFees { amount, .. } => -(amount as int),
        _ => 0,
    }
}

/// If the totals of at most two users change between two stores, the sum of
/// the totals of a list of users without repetition changes by the changes
/// of those of the two that are in the list.
proof fn lemma_sum_of_changes(
    before: StoreView,
    after: StoreView,
    users: Seq<Seq<char>>,
    first: Seq<char>,
    first_change: int,
    second: Seq<char>,
    second_change: int,
)
    requires
        users.no_duplicates(),
        forall|user: Seq<char>| #[trigger]
            after.balance_of(user).total == before.balance_of(user).total + (if user == first {
                first_change
            } else {
                0
            }) + (if user == second {
                second_change
            } else {
                0
            }),
    ensures
        sum_of_totals(after, users) == sum_of_totals(before, users) + (if users.contains(first) {
            first_change
        } else {
            0
        }) + (if users.contains(second) {
            second_change
        } else {
            0
        }),
    decreases users.len(),
{
    if users.len() > 0 {
        let rest = users.drop_last();
        let last = users.last();
        assert(rest.no_duplicates());
        lemma_sum_of_changes(before, after, rest, first, first_change, second, second_change);
        assert forall|name: Seq<char>| users.contains(name) <==> (rest.contains(name) || name
            == last) by {
            if rest.contains(name) {
                let i = choose|i: int| 0 <= i < rest.len() && rest[i] == name;
                assert(users[i] == name);
            }
            if name == last {
                assert(users[users.len() - 1] == name);
            }
            if users.contains(name) {
                let i = choose|i: int| 0 <= i < users.len() && users[i] == name;
                if i < rest.len() {
                    assert(rest[i] == name);
                }
            }
        }
        assert(!rest.contains(last)) by {
            if rest.contains(last) {
                let i = choose|i: int| 0 <= i < rest.len() && rest[i] == last;
                assert(users[i] == users[users.len() - 1]);
            }
        }
        assert(after.balance_of(last).total == before.balance_of(last).total + (if last == first {
            first_change
        } else {
            0
        }) + (if last == second {
            second_change
        } else {
            0
        }));
    }
}

/// No request creates or destroys tokens. Take any list of users without
/// repetition that holds every user a request concerns. The totals of these
/// users together change by what the request moves into or out of custody:
/// they grow by a confirmed deposit, shrink by a withdrawal or a collection
/// of fees, and stay what they are when a room is opened or finished,
/// whoever wins.
pub proof fn lemma_requests_conserve_tokens(
    store: StoreView,
    sender: Seq<char>,
    request: RequestView,
    users: Seq<Seq<char>>,
)
    requires
        store.executed(sender, request) is Ok,
        users.no_duplicates(),
        forall|user: Seq<char>| #[trigger]
            users_of_request(store, sender, request).contains(user) ==> users.contains(user),
    ensures
        sum_of_totals(store.executed(sender, request)->Ok_0, users) == sum_of_totals(store, users)
            + net_inflow(request),
{
    let after = store.executed(sender, request)->Ok_0;
    let named = users_of_request(store, sender, request);
    match request {
        RequestView::UpdateBalance { mode } => {
            assert(named[0] == sender);
            assert(named.contains(sender));
            lemma_sum_of_changes(store, after, users, sender, net_inflow(request), sender, 0);
        },
        RequestView::CreateGameRoom { contestant1, contestant2, prize_pool } => {
            assert forall|user: Seq<char>| #[trigger]
                after.balance_of(user).total == store.balance_of(user).total by {
                lemma_creation_locks_stakes(
                    store,
                    sender,
                    contestant1,
                    contestant2,
                    prize_pool,
                    user,
                );
            }
            lemma_sum_of_changes(store, after, users, contestant1, 0, contestant1, 0);
        },
        RequestView::FinishGameRoom { key, result } => {
            let room = store.game_rooms[key];
            match result {
                StatusView::Win { addr } => {
                    let loser = StoreView::loser_of(room, addr);
                    let stake = min_required_stake(room.prize_pool, store.fee);
                    assert(named[0] == room.contestant1 && named[1] == room.contestant2 && named[2]
                        == addr);
                    assert(named.contains(addr) && named.contains(loser));
                    assert forall|user: Seq<char>| #[trigger]
                        after.balance_of(user).total == store.balance_of(user).total + (if user
                            == addr {
                            stake as int
                        } else {
                            0
                        }) + (if user == loser {
                            -(stake as int)
                        } else {
                            0
                        }) by {
                        lemma_win_moves_the_stake(store, sender, key, addr, user);
                    }
                    lemma_sum_of_changes(
                        store,
                        after,
                        users,
                        addr,
                        stake as int,
                        loser,
                        -(stake as int),
                    );
                },
                _ => {
                    assert forall|user: Seq<char>| #[trigger]
                        after.balance_of(user).total == store.balance_of(user).total by {
                        lemma_draw_changes_no_total(store, sender, key, user);
                    }
                    lemma_sum_of_changes(store, after, users, sender, 0, sender, 0);
                },
            }
        },
        RequestView::CollectFees { .. } => {
            assert(named[0] == store.admin);
            assert(named.contains(store.admin));
            lemma_sum_of_changes(
                store,
                after,
                users,
                store.admin,
                net_inflow(request),
                store.admin,
                0,
            );
        },
        RequestView::Receive { mode } => {
            match mode {
                UpdateBalanceView::Deposit { user: Some(user), .. } => {
                    assert(named[0] == user);
                    assert(named.contains(user));
                    lemma_sum_of_changes(store, after, users, user, net_inflow(request), user, 0);
                },
                UpdateBalanceView::Withdraw { user: Some(user), .. } => {
                    assert(named[0] == user);
                    assert(named.contains(user));
                    lemma_sum_of_changes(store, after, users, user, net_inflow(request), user, 0);
                },
                _ => {},
            }
        },
    }
}

} // verus!
