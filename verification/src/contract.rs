//! The entry points of the ledger: set-up, requests and queries.

use vstd::prelude::*;
use vstd::string::*;
use crate::contract::execute::{
    collect_fees,
    create_game_room,
    finish_game_room,
    update_balance,
    update_balance_callback,
};
use crate::error::{ContractError, ErrorView};
use crate::helpers::decimal_string;
use crate::msg::{ExecuteMsg, InstantiateMsg, QueryMsg};
use crate::response::Response;
use crate::state::{Balance, GameRoomsState};
use crate::store::{follows, Store, StoreView};
use crate::transitions::{execute_response, instantiate_response, AnswerView};

pub mod execute;

verus! {

/// Sets up a ledger: the fee, the administrator and the token contract are
/// fixed for good, and the administrator gets an empty balance.
pub fn instantiate(msg: InstantiateMsg) -> (r: (Store, Response))
    ensures
        r.0@ == StoreView::instantiated(msg.fee as nat, msg.admin@, msg.enigma_token_duel@),
        r.1@ == instantiate_response(msg.fee as nat, msg.admin@),
        r.0@.wf(),
{
    let response = Response::new().add_attribute(
        "method",
        String::from_str("instantiate"),
    ).add_attribute("admin", msg.admin.clone()).add_attribute("fee", decimal_string(msg.fee));
    assert(response@.attributes =~= instantiate_response(msg.fee as nat, msg.admin@).attributes);
    let mut store = Store::new(msg.admin.clone(), msg.fee, msg.enigma_token_duel);
    store.set_balance(msg.admin.as_str(), Balance::new_zero());
    (store, response)
}

/// Carries out a request of `sender`. `contract` is the address of this
/// ledger, under which the token contract holds the tokens in custody.
pub fn execute(
    store: &mut Store,
    contract: &str,
    sender: &str,
    msg: ExecuteMsg,
) -> (r: Result<Response, ContractError>)
    ensures
        follows(old(store)@, final(store)@, r, old(store)@.executed(sender@, msg@)),
        r matches Ok(response) ==> response@ == execute_response(
            old(store)@,
            contract@,
            sender@,
            msg@,
        ),
        r is Err ==> final(store)@ == old(store)@,
        old(store)@.wf() ==> final(store)@.wf(),
        sender@ != old(store)@.admin && (msg is CreateGameRoom || msg is FinishGameRoom
            || msg is CollectFees) ==> r is Err && r->Err_0@ == ErrorView::Unauthorized,
        sender@ != old(store)@.enigma_duel_token && msg is Receive ==> r is Err && r->Err_0@
            == ErrorView::Unauthorized,
{
    match msg {
        ExecuteMsg::UpdateBalance { update_mode } => update_balance(
            store,
            contract,
            sender,
            update_mode,
        ),
        ExecuteMsg::CreateGameRoom { game_room_init_params } => create_game_room(
            store,
            sender,
            game_room_init_params,
        ),
        ExecuteMsg::FinishGameRoom { game_room_finish_params } => finish_game_room(
            store,
            sender,
            game_room_finish_params,
        ),
        ExecuteMsg::CollectFees { collect_fees_params } => collect_fees(
            store,
            sender,
            collect_fees_params,
        ),
        ExecuteMsg::Receive(receive_msg) => update_balance_callback(store, sender, receive_msg.msg),
    }
}

/// The answer to a query.
#[derive(Debug, PartialEq, Eq)]
pub enum QueryResponse {
    /// What a user has available.
    UserBalance(u128),
    /// What a user has locked.
    UserLockedBalance(u128),
    /// The room stored under a key, if there is one.
    GameRoomState(Option<GameRoomsState>),
    /// What the administrator has available.
    CollectedFees(u128),
    /// The number of rooms opened so far.
    TotalGames(u128),
}

impl View for QueryResponse {
    type V = AnswerView;

    open spec fn view(&self) -> AnswerView {
        match self {
            QueryResponse::UserBalance(amount) => AnswerView::UserBalance(*amount as nat),
            QueryResponse::UserLockedBalance(amount) => AnswerView::UserLockedBalance(
                *amount as nat,
            ),
            QueryResponse::GameRoomState(room) => AnswerView::GameRoomState(
                match room {
                    Some(found) => Some(found@),
                    None => None,
                },
            ),
            QueryResponse::CollectedFees(amount) => AnswerView::CollectedFees(*amount as nat),
            QueryResponse::TotalGames(count) => AnswerView::TotalGames(*count as nat),
        }
    }
}

/// Answers a query. The store is only read.
pub fn query(store: &Store, msg: QueryMsg) -> (r: QueryResponse)
    ensures
        r@ == store@.answered(msg@),
{
    match msg {
        QueryMsg::GetUserBalance { user } => QueryResponse::UserBalance(
            store.balance(user.as_str()).available_balance(),
        ),
        QueryMsg::GetUserLockedBalance { user } => QueryResponse::UserLockedBalance(
            store.balance(user.as_str()).locked_balance(),
        ),
        QueryMsg::GetGameRoomState { game_room_key } => QueryResponse::GameRoomState(
            store.room(game_room_key.as_str()),
        ),
        QueryMsg::GetCollectedFees {  } => QueryResponse::CollectedFees(
            store.balance(store.admin.as_str()).available_balance(),
        ),
        QueryMsg::GetTotalGames {  } => QueryResponse::TotalGames(store.game_rooms_count),
    }
}

} // verus!
