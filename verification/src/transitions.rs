//! The requests as transitions of the store.
//!
//! Each function below takes the store before a request and yields the store
//! after it, or the error that rejects the request. A request is checked in
//! the order in which the conditions are written: the first one that fails
//! decides the error.

use vstd::prelude::*;
use crate::error::ErrorView;
use crate::helpers::{decimal_text, min_required_stake, room_key, winner_gain};
use crate::msg::{QueryView, RequestView, StatusView, UpdateBalanceView};
use crate::response::{ResponseView, TokenCallView, TokenMsgView};
use crate::state::{Balance, GameRoomView};
use crate::store::StoreView;

verus! {

/// The answer to a query.
pub enum AnswerView {
    UserBalance(nat),
    UserLockedBalance(nat),
    GameRoomState(Option<GameRoomView>),
    CollectedFees(nat),
    TotalGames(nat),
}

/// The message of the error for a confirmation that names no user.
pub open spec fn missing_user_text() -> Seq<char> {
    "balance update without a user"@
}

/// The message of the error for a room key under which no room is stored.
pub open spec fn missing_room_text() -> Seq<char> {
    "game room not found"@
}

impl StoreView {
    /// The store of a new ledger: the administrator has an empty balance,
    /// nobody else has one, and no room has been opened.
    pub open spec fn instantiated(fee: nat, admin: Seq<char>, token: Seq<char>) -> StoreView {
        StoreView {
            admin,
            fee,
            enigma_duel_token: token,
            game_rooms_count: 0,
            balances: Map::empty().insert(admin, Balance { total: 0, locked: 0 }),
            game_rooms: Map::empty(),
        }
    }

    /// Whether a room is stored under `key` and is still running.
    pub open spec fn room_is_started(self, key: Seq<char>) -> bool {
        self.game_rooms.contains_key(key) && self.game_rooms[key].status is Started
    }

    /// A user asks for a deposit or a withdrawal. A deposit changes nothing
    /// yet: the tokens have to move first. A withdrawal takes the amount from
    /// the balance of the user who asks.
    pub open spec fn balance_requested(
        self,
        sender: Seq<char>,
        mode: UpdateBalanceView,
    ) -> Result<StoreView, ErrorView> {
        match mode {
            UpdateBalanceView::Deposit { .. } => Ok(self),
            UpdateBalanceView::Withdraw { amount, .. } => self.withdrawn(sender, amount),
        }
    }

    /// The token contract confirms a balance update. Only the registered
    /// token contract is believed; the update must name the user it is for.
    pub open spec fn balance_confirmed(
        self,
        sender: Seq<char>,
        mode: UpdateBalanceView,
    ) -> Result<StoreView, ErrorView> {
        if sender != self.enigma_duel_token {
            Err(ErrorView::Unauthorized)
        } else {
            match mode {
                UpdateBalanceView::Deposit { user: Some(user), amount } => self.deposited(
                    user,
                    amount,
                ),
                UpdateBalanceView::Withdraw { user: Some(user), amount, .. } => self.withdrawn(
                    user,
                    amount,
                ),
                _ => Err(ErrorView::Std { msg: missing_user_text() }),
            }
        }
    }

    /// The administrator opens a room for two contestants. Each of them must
    /// have the stake available; the room of this pair must not be running.
    /// The room is stored as `Started`, the count of rooms grows by one, and
    /// the stake is locked in the balance of the first contestant and then in
    /// that of the second.
    pub open spec fn room_created(
        self,
        sender: Seq<char>,
        contestant1: Seq<char>,
        contestant2: Seq<char>,
        prize_pool: nat,
    ) -> Result<StoreView, ErrorView> {
        let stake = min_required_stake(prize_pool, self.fee);
        let key = room_key(contestant1, contestant2);
        if sender != self.admin {
            Err(ErrorView::Unauthorized)
        } else if prize_pool < 2 * self.fee {
            Err(ErrorView::InsufficientPrizePool { prize_pool, fee: self.fee })
        } else if self.balance_of(contestant1).available() < stake {
            Err(self.insufficient(contestant1, stake))
        } else if self.balance_of(contestant2).available() < stake {
            Err(self.insufficient(contestant2, stake))
        } else if self.room_is_started(key) {
            Err(ErrorView::GameRoomAlreadyStarted)
        } else if self.game_rooms_count + 1 > u128::MAX {
            Err(ErrorView::ArithmeticError)
        } else {
            let opened = StoreView {
                game_rooms: self.game_rooms.insert(
                    key,
                    GameRoomView {
                        contestant1,
                        contestant2,
                        prize_pool,
                        status: StatusView::Started,
                    },
                ),
                game_rooms_count: self.game_rooms_count + 1,
                ..self
            };
            match opened.locked(contestant1, stake) {
                Ok(first_locked) => first_locked.locked(contestant2, stake),
                Err(e) => Err(e),
            }
        }
    }

    /// The party that loses a room when `winner` wins it: the second
    /// contestant if the winner is the first, the first contestant otherwise.
    pub open spec fn loser_of(room: GameRoomView, winner: Seq<char>) -> Seq<char> {
        if room.contestant1 == winner {
            room.contestant2
        } else {
            room.contestant1
        }
    }

    /// The administrator finishes the room stored under `key`. The room must
    /// be running and `result` must be a win or a draw. The room is stored
    /// with the result and an empty prize pool. On a win the stake of the
    /// winner is released and the winner gains half the prize pool less the
    /// fee; the stake of the loser is released and leaves the loser's total.
    /// On a draw both stakes are released and no total changes. What the
    /// winner gains is exactly what the loser staked: the fee lowers the
    /// stake that a room asks for, and no balance pays it.
    pub open spec fn room_finished(
        self,
        sender: Seq<char>,
        key: Seq<char>,
        result: StatusView,
    ) -> Result<StoreView, ErrorView> {
        if sender != self.admin {
            Err(ErrorView::Unauthorized)
        } else if !self.game_rooms.contains_key(key) {
            Err(ErrorView::GameRoomLoadError { msg: missing_room_text() })
        } else {
            let room = self.game_rooms[key];
            let stake = min_required_stake(room.prize_pool, self.fee);
            let closed = StoreView {
                game_rooms: self.game_rooms.insert(key, room.finished(result)),
                ..self
            };
            if result is Started || !(room.status is Started) {
                Err(ErrorView::GameRoomNotStarted)
            } else if room.prize_pool < 2 * self.fee {
                Err(ErrorView::InsufficientPrizePool { prize_pool: room.prize_pool, fee: self.fee })
            } else {
                match result {
                    StatusView::Win { addr } => match closed.released_with_gain(
                        addr,
                        stake,
                        winner_gain(room.prize_pool, self.fee),
                    ) {
                        Ok(paid) => paid.released_with_loss(
                            Self::loser_of(room, addr),
                            stake,
                            stake,
                        ),
                        Err(e) => Err(e),
                    },
                    _ => match closed.released_with_loss(room.contestant1, stake, 0) {
                        Ok(released) => released.released_with_loss(room.contestant2, stake, 0),
                        Err(e) => Err(e),
                    },
                }
            }
        }
    }

    /// The answer to a query: what a user has available or locked, the room
    /// stored under a key, what the administrator has available, or the
    /// number of rooms opened so far.
    pub open spec fn answered(self, query: QueryView) -> AnswerView {
        match query {
            QueryView::GetUserBalance { user } => AnswerView::UserBalance(
                self.balance_of(user).available(),
            ),
            QueryView::GetUserLockedBalance { user } => AnswerView::UserLockedBalance(
                self.balance_of(user).locked as nat,
            ),
            QueryView::GetGameRoomState { key } => AnswerView::GameRoomState(
                if self.game_rooms.contains_key(key) {
                    Some(self.game_rooms[key])
                } else {
                    None
                },
            ),
            QueryView::GetCollectedFees => AnswerView::CollectedFees(
                self.balance_of(self.admin).available(),
            ),
            QueryView::GetTotalGames => AnswerView::TotalGames(self.game_rooms_count),
        }
    }

    /// Any request of `sender`.
    pub open spec fn executed(
        self,
        sender: Seq<char>,
        request: RequestView,
    ) -> Result<StoreView, ErrorView> {
        match request {
            RequestView::UpdateBalance { mode } => self.balance_requested(sender, mode),
            RequestView::CreateGameRoom { contestant1, contestant2, prize_pool } => {
                self.room_created(sender, contestant1, contestant2, prize_pool)
            },
            RequestView::FinishGameRoom { key, result } => self.room_finished(sender, key, result),
            RequestView::CollectFees { amount, .. } => self.fees_collected(sender, amount),
            RequestView::Receive { mode } => self.balance_confirmed(sender, mode),
        }
    }

    /// The administrator pays out `amount` of the administrator's balance.
    pub open spec fn fees_collected(
        self,
        sender: Seq<char>,
        amount: nat,
    ) -> Result<StoreView, ErrorView> {
        if sender != self.admin {
            Err(ErrorView::Unauthorized)
        } else {
            self.withdrawn(self.admin, amount)
        }
    }
}

/// The instruction to move `amount` tokens out of custody to `recipient`.
pub open spec fn transfer_instruction(
    token: Seq<char>,
    recipient: Seq<char>,
    amount: nat,
) -> TokenMsgView {
    TokenMsgView { contract_addr: token, call: TokenCallView::Transfer { recipient, amount } }
}

/// The instruction to move `amount` tokens of `owner` into the custody of
/// `contract` and to confirm the deposit for `owner`.
pub open spec fn pull_instruction(
    token: Seq<char>,
    owner: Seq<char>,
    contract: Seq<char>,
    amount: nat,
) -> TokenMsgView {
    TokenMsgView {
        contract_addr: token,
        call: TokenCallView::SendFrom {
            owner,
            contract,
            amount,
            msg: UpdateBalanceView::Deposit { user: Some(owner), amount },
        },
    }
}

/// The response to a request of `sender` that was carried out on `store`.
/// `contract` is the address under which the tokens are held in custody.
pub open spec fn execute_response(
    store: StoreView,
    contract: Seq<char>,
    sender: Seq<char>,
    request: RequestView,
) -> ResponseView {
    match request {
        RequestView::UpdateBalance { mode } => balance_request_response(
            store.enigma_duel_token,
            contract,
            sender,
            mode,
        ),
        RequestView::CreateGameRoom { contestant1, contestant2, .. } => room_created_response(
            contestant1,
            contestant2,
        ),
        RequestView::FinishGameRoom { .. } => empty_response(),
        RequestView::CollectFees { amount, receiver } => fees_collected_response(
            store.enigma_duel_token,
            store.admin,
            amount,
            receiver,
        ),
        RequestView::Receive { mode } => balance_confirmation_response(mode),
    }
}

/// The response that tells nothing.
pub open spec fn empty_response() -> ResponseView {
    ResponseView { attributes: Seq::empty(), messages: Seq::empty() }
}

/// The response to the set-up of a ledger.
pub open spec fn instantiate_response(fee: nat, admin: Seq<char>) -> ResponseView {
    ResponseView {
        attributes: seq![
            ("method"@, "instantiate"@),
            ("admin"@, admin),
            ("fee"@, decimal_text(fee)),
        ],
        messages: Seq::empty(),
    }
}

/// The response to a user who asked for a deposit or a withdrawal. For a
/// deposit the token contract is told to move the tokens of the user into
/// custody, for a withdrawal to move them out of custody to the receiver.
pub open spec fn balance_request_response(
    token: Seq<char>,
    contract: Seq<char>,
    sender: Seq<char>,
    mode: UpdateBalanceView,
) -> ResponseView {
    ResponseView {
        attributes: seq![
            ("action"@, "update_balance_request"@),
            ("request_data"@, mode.description()),
        ],
        messages: seq![
            match mode {
                UpdateBalanceView::Deposit { amount, .. } => pull_instruction(
                    token,
                    sender,
                    contract,
                    amount,
                ),
                UpdateBalanceView::Withdraw { amount, receiver, .. } => transfer_instruction(
                    token,
                    receiver,
                    amount,
                ),
            },
        ],
    }
}

/// The response to a confirmed balance update.
pub open spec fn balance_confirmation_response(mode: UpdateBalanceView) -> ResponseView {
    ResponseView {
        attributes: seq![
            ("action"@, "update_balance_confirmed"@),
            ("update_balance_data"@, mode.description()),
        ],
        messages: Seq::empty(),
    }
}

/// The response to the opening of a room: it tells the key of the room.
pub open spec fn room_created_response(
    contestant1: Seq<char>,
    contestant2: Seq<char>,
) -> ResponseView {
    ResponseView {
        attributes: seq![
            ("action"@, "crate_game_room"@),
            ("room_key"@, room_key(contestant1, contestant2)),
        ],
        messages: Seq::empty(),
    }
}

/// The response to the collection of fees: the token contract is told to
/// move the amount out of custody to the receiver.
pub open spec fn fees_collected_response(
    token: Seq<char>,
    admin: Seq<char>,
    amount: nat,
    receiver: Seq<char>,
) -> ResponseView {
    ResponseView {
        attributes: seq![
            ("action"@, "collect fees"@),
            (
                "request_data"@,
                (UpdateBalanceView::Withdraw { user: Some(admin), amount, receiver }).description(),
            ),
        ],
        messages: seq![transfer_instruction(token, receiver, amount)],
    }
}

} // verus!
