//! Requests, queries and the values that travel with them.

use vstd::prelude::*;
use vstd::string::*;
use crate::helpers::{decimal_string, decimal_text};

verus! {

/// What a new ledger is set up with.
#[derive(Debug, PartialEq, Eq)]
pub struct InstantiateMsg {
    /// The fee set aside for each contestant of a room.
    pub fee: u128,
    /// The address that may open and finish rooms and collect fees.
    pub admin: String,
    /// The address of the token contract whose callbacks are trusted.
    pub enigma_token_duel: String,
}

/// The state of a room: running, or finished as a win or a draw.
#[derive(Debug, PartialEq, Eq)]
pub enum GameRoomStatus {
    Started {},
    Win { addr: String },
    Draw {},
}

/// Mathematical model of [`GameRoomStatus`].
pub enum StatusView {
    Started,
    Win { addr: Seq<char> },
    Draw,
}

impl View for GameRoomStatus {
    type V = StatusView;

    open spec fn view(&self) -> StatusView {
        match self {
            GameRoomStatus::Started {  } => StatusView::Started,
            GameRoomStatus::Win { addr } => StatusView::Win { addr: addr@ },
            GameRoomStatus::Draw {  } => StatusView::Draw,
        }
    }
}

impl Clone for GameRoomStatus {
    fn clone(&self) -> (copy: Self)
        ensures
            copy@ == self@,
    {
        match self {
            GameRoomStatus::Started {  } => GameRoomStatus::Started {  },
            GameRoomStatus::Win { addr } => GameRoomStatus::Win { addr: addr.clone() },
            GameRoomStatus::Draw {  } => GameRoomStatus::Draw {  },
        }
    }
}

/// The request to open a room for two contestants.
#[derive(Debug, PartialEq, Eq)]
pub struct GameRoomIntiParams {
    pub contestant1: String,
    pub contestant2: String,
    /// The nominal prize: the stakes of both contestants and the fee of both.
    pub prize_pool: u128,
    /// Not read: a new room is always `Started`.
    pub status: GameRoomStatus,
}

/// The request to finish the room with the given key.
#[derive(Debug, PartialEq, Eq)]
pub struct GameRoomFinishParams {
    pub game_room_key: String,
    pub result: GameRoomStatus,
}

/// The request to pay out part of the administrator's balance.
#[derive(Debug, PartialEq, Eq)]
pub struct CollectFeesParams {
    pub amount: u128,
    pub receiver: String,
}

/// A deposit or a withdrawal, as requested by a user or as confirmed by the
/// token contract.
#[derive(Debug, PartialEq, Eq)]
pub enum UpdateBalanceMode {
    Deposit { user: Option<String>, amount: u128 },
    Withdraw { user: Option<String>, amount: u128, receiver: String },
}

/// Mathematical model of [`UpdateBalanceMode`].
pub enum UpdateBalanceView {
    Deposit { user: Option<Seq<char>>, amount: nat },
    Withdraw { user: Option<Seq<char>>, amount: nat, receiver: Seq<char> },
}

/// The text of an optional address.
pub open spec fn optional_text(user: Option<String>) -> Option<Seq<char>> {
    match user {
        Some(name) => Some(name@),
        None => None,
    }
}

/// The address if there is one, the empty text otherwise.
pub open spec fn text_or_empty(user: Option<Seq<char>>) -> Seq<char> {
    match user {
        Some(name) => name,
        None => Seq::empty(),
    }
}

impl View for UpdateBalanceMode {
    type V = UpdateBalanceView;

    open spec fn view(&self) -> UpdateBalanceView {
        match self {
            UpdateBalanceMode::Deposit { user, amount } => UpdateBalanceView::Deposit {
                user: optional_text(*user),
                amount: *amount as nat,
            },
            UpdateBalanceMode::Withdraw { user, amount, receiver } => UpdateBalanceView::Withdraw {
                user: optional_text(*user),
                amount: *amount as nat,
                receiver: receiver@,
            },
        }
    }
}

impl UpdateBalanceView {
    /// The one-line description of a balance update.
    pub open spec fn description(self) -> Seq<char> {
        match self {
            UpdateBalanceView::Deposit { user, amount } => "Deposit "@ + decimal_text(amount)
                + " tokens for user "@ + text_or_empty(user) + " "@,
            UpdateBalanceView::Withdraw { user, amount, receiver } => "withdraw "@ + decimal_text(
                amount,
            ) + " tokens for user "@ + receiver + " from "@ + text_or_empty(user) + " "@,
        }
    }
}

fn clone_optional(user: &Option<String>) -> (copy: Option<String>)
    ensures
        optional_text(copy) == optional_text(*user),
{
    match user {
        Some(name) => Some(name.clone()),
        None => None,
    }
}

impl Clone for UpdateBalanceMode {
    fn clone(&self) -> (copy: Self)
        ensures
            copy@ == self@,
    {
        match self {
            UpdateBalanceMode::Deposit { user, amount } => UpdateBalanceMode::Deposit {
                user: clone_optional(user),
                amount: *amount,
            },
            UpdateBalanceMode::Withdraw { user, amount, receiver } => UpdateBalanceMode::Withdraw {
                user: clone_optional(user),
                amount: *amount,
                receiver: receiver.clone(),
            },
        }
    }
}

impl UpdateBalanceMode {
    /// Describes the update in one line, for the attributes of a response. A
    /// missing user is written as the empty text.
    pub fn to_string(&self) -> (text: String)
        ensures
            text@ == self@.description(),
    {
        match self {
            UpdateBalanceMode::Deposit { user, amount } => {
                let mut text: String = String::from_str("Deposit ");
                text.append(decimal_string(*amount).as_str());
                text.append(" tokens for user ");
                match user {
                    Some(name) => text.append(name.as_str()),
                    None => {},
                }
                text.append(" ");
                assert(text@ =~= self@.description());
                text
            },
            UpdateBalanceMode::Withdraw { user, amount, receiver } => {
                let mut text: String = String::from_str("withdraw ");
                text.append(decimal_string(*amount).as_str());
                text.append(" tokens for user ");
                text.append(receiver.as_str());
                text.append(" from ");
                match user {
                    Some(name) => text.append(name.as_str()),
                    None => {},
                }
                text.append(" ");
                assert(text@ =~= self@.description());
                text
            },
        }
    }
}

/// The instruction to the token contract to move tokens of `owner` into the
/// custody of `contract`, with the deposit that the token contract is to
/// confirm once the tokens have moved.
#[derive(Debug, PartialEq, Eq)]
pub struct SendFrom {
    pub owner: String,
    pub contract: String,
    pub amount: u128,
    pub msg: UpdateBalanceMode,
}

/// The confirmation that the token contract sends once tokens have moved.
#[derive(Debug, PartialEq, Eq)]
pub struct Cw20ReceiveMsg {
    /// The account whose tokens moved.
    pub sender: String,
    pub amount: u128,
    /// The balance update that is confirmed.
    pub msg: UpdateBalanceMode,
}

/// A request that changes the ledger.
#[derive(Debug, PartialEq, Eq)]
pub enum ExecuteMsg {
    UpdateBalance { update_mode: UpdateBalanceMode },
    CreateGameRoom { game_room_init_params: GameRoomIntiParams },
    FinishGameRoom { game_room_finish_params: GameRoomFinishParams },
    CollectFees { collect_fees_params: CollectFeesParams },
    Receive(Cw20ReceiveMsg),
}

/// Mathematical model of [`ExecuteMsg`]: what a request asks for.
pub enum RequestView {
    UpdateBalance { mode: UpdateBalanceView },
    CreateGameRoom { contestant1: Seq<char>, contestant2: Seq<char>, prize_pool: nat },
    FinishGameRoom { key: Seq<char>, result: StatusView },
    CollectFees { amount: nat, receiver: Seq<char> },
    Receive { mode: UpdateBalanceView },
}

impl View for ExecuteMsg {
    type V = RequestView;

    open spec fn view(&self) -> RequestView {
        match self {
            ExecuteMsg::UpdateBalance { update_mode } => RequestView::UpdateBalance {
                mode: update_mode@,
            },
            ExecuteMsg::CreateGameRoom { game_room_init_params } => RequestView::CreateGameRoom {
                contestant1: game_room_init_params.contestant1@,
                contestant2: game_room_init_params.contestant2@,
                prize_pool: game_room_init_params.prize_pool as nat,
            },
            ExecuteMsg::FinishGameRoom { game_room_finish_params } => RequestView::FinishGameRoom {
                key: game_room_finish_params.game_room_key@,
                result: game_room_finish_params.result@,
            },
            ExecuteMsg::CollectFees { collect_fees_params } => RequestView::CollectFees {
                amount: collect_fees_params.amount as nat,
                receiver: collect_fees_params.receiver@,
            },
            ExecuteMsg::Receive(receive_msg) => RequestView::Receive { mode: receive_msg.msg@ },
        }
    }
}

/// The balance of a user after a change.
#[derive(Clone, Copy, Debug, PartialEq, Eq)]
pub struct BalanceChangeResp(pub u128);

/// The number of a new room.
#[derive(Clone, Copy, Debug, PartialEq, Eq)]
pub struct CreateGameRoomResp(pub i64);

/// A question to the ledger. None of them changes it.
#[derive(Debug, PartialEq, Eq)]
pub enum QueryMsg {
    GetUserBalance { user: String },
    GetUserLockedBalance { user: String },
    GetGameRoomState { game_room_key: String },
    GetCollectedFees {},
    GetTotalGames {},
}

/// Mathematical model of [`QueryMsg`].
pub enum QueryView {
    GetUserBalance { user: Seq<char> },
    GetUserLockedBalance { user: Seq<char> },
    GetGameRoomState { key: Seq<char> },
    GetCollectedFees,
    GetTotalGames,
}

impl View for QueryMsg {
    type V = QueryView;

    open spec fn view(&self) -> QueryView {
        match self {
            QueryMsg::GetUserBalance { user } => QueryView::GetUserBalance { user: user@ },
            QueryMsg::GetUserLockedBalance { user } => QueryView::GetUserLockedBalance {
                user: user@,
            },
            QueryMsg::GetGameRoomState { game_room_key } => QueryView::GetGameRoomState {
                key: game_room_key@,
            },
            QueryMsg::GetCollectedFees {  } => QueryView::GetCollectedFees,
            QueryMsg::GetTotalGames {  } => QueryView::GetTotalGames,
        }
    }
}

/// The available balance of a user.
#[derive(Clone, Copy, Debug, PartialEq, Eq)]
pub struct GetUserBalanceResp {
    pub balance: u128,
}

/// The fees that the administrator can collect.
#[derive(Clone, Copy, Debug, PartialEq, Eq)]
pub struct GetCollectedFeesResp {
    pub fees: u128,
}

/// The number of rooms opened so far.
#[derive(Clone, Copy, Debug, PartialEq, Eq)]
pub struct GetTotalGamesResp {
    pub total_games: i64,
}

} // verus!
