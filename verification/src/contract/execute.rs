//! The requests that change the store.
//!
//! Every function here works out the whole outcome of a request before it
//! touches the store, so that a rejected request leaves no trace.

use vstd::prelude::*;
use vstd::string::*;
use crate::error::{ContractError, ErrorView, InsufficientBalanceErr, InsufficientBalanceView};
use crate::helpers::{cal_min_required, create_key_hash, lemma_winner_gain_is_stake};
use crate::msg::{
    CollectFeesParams,
    GameRoomFinishParams,
    GameRoomIntiParams,
    GameRoomStatus,
    SendFrom,
    UpdateBalanceMode,
};
use crate::response::{Response, TokenCall, TokenMsg};
use crate::state::{Balance, GameRoomsState};
use crate::store::{follows, same_text, Store};
use crate::transitions::{
    balance_confirmation_response,
    balance_request_response,
    empty_response,
    fees_collected_response,
    room_created_response,
};

verus! {

fn insufficient(min_required: u128, balance: Balance, user: &str) -> (e: ContractError)
    ensures
        e@ == ErrorView::InsufficientBalance(
            InsufficientBalanceView {
                min_required: min_required as nat,
                current_balance: balance.available(),
                user: user@,
            },
        ),
{
    ContractError::InsufficientBalance(
        InsufficientBalanceErr {
            min_required,
            current_balance: balance.available_balance(),
            user: String::from_str(user),
        },
    )
}

/// Opens a room for the two contestants of `params` and locks the stake of
/// each. Only the administrator may do so. The response tells the key of the
/// room.
///
/// The request is rejected if the prize pool does not cover the fee of both
/// contestants, if one of them has less than the stake available (the first
/// of them is named), if the room of the pair is still running, or if the
/// count of rooms cannot grow.
pub fn create_game_room(
    store: &mut Store,
    sender: &str,
    params: GameRoomIntiParams,
) -> (r: Result<Response, ContractError>)
    ensures
        follows(
            old(store)@,
            final(store)@,
            r,
            old(store)@.room_created(
                sender@,
                params.contestant1@,
                params.contestant2@,
                params.prize_pool as nat,
            ),
        ),
        sender@ != old(store)@.admin ==> r is Err && r->Err_0@ == ErrorView::Unauthorized,
        r is Err ==> final(store)@ == old(store)@,
        old(store)@.wf() ==> final(store)@.wf(),
        r matches Ok(response) ==> response@ == room_created_response(
            params.contestant1@,
            params.contestant2@,
        ),
{
    if !same_text(sender, store.admin.as_str()) {
        return Err(ContractError::Unauthorized {  });
    }
    let stake: u128 = cal_min_required(params.prize_pool, store.fee)?;
    let mut first: Balance = store.balance(params.contestant1.as_str());
    if first.available_balance() < stake {
        return Err(insufficient(stake, first, params.contestant1.as_str()));
    }
    let second: Balance = store.balance(params.contestant2.as_str());
    if second.available_balance() < stake {
        return Err(insufficient(stake, second, params.contestant2.as_str()));
    }
    let key: String = create_key_hash(params.contestant1.clone(), params.contestant2.clone());
    match store.room(key.as_str()) {
        Some(room) => match room.status {
            GameRoomStatus::Started {  } => {
                return Err(ContractError::GameRoomAlreadyStarted {  });
            },
            _ => {},
        },
        None => {},
    }
    let count: u128 = match store.game_rooms_count.checked_add(1) {
        Some(count) => count,
        None => {
            return Err(ContractError::ArithmeticError {  });
        },
    };
    // the stake of the first contestant is available, so this lock succeeds
    let first_locked: Balance = first.lock(stake)?;
    let mut second_before: Balance = if same_text(
        params.contestant1.as_str(),
        params.contestant2.as_str(),
    ) {
        first_locked
    } else {
        second
    };
    let second_locked: Balance = match second_before.lock(stake) {
        Ok(balance) => balance,
        Err(_) => {
            return Err(insufficient(stake, second_before, params.contestant2.as_str()));
        },
    };
    let room = GameRoomsState {
        contestant1: params.contestant1.clone(),
        contestant2: params.contestant2.clone(),
        prize_pool: params.prize_pool,
        status: GameRoomStatus::Started {  },
    };
    store.set_room(key.as_str(), room);
    store.game_rooms_count = count;
    store.set_balance(params.contestant1.as_str(), first_locked);
    store.set_balance(params.contestant2.as_str(), second_locked);
    let response = Response::new().add_attribute(
        "action",
        String::from_str("crate_game_room"),
    ).add_attribute("room_key", key);
    assert(response@.attributes =~= room_created_response(
        params.contestant1@,
        params.contestant2@,
    ).attributes);
    Ok(response)
}

/// Finishes the room stored under the key of `params` with the result of
/// `params`, and settles the stakes. Only the administrator may do so.
///
/// On a win the stake of each of the two parties is released, the winner
/// gains half the prize pool less the fee, and the loser loses the stake. The
/// winner is the address that the result names, the loser the second
/// contestant if the winner is the first, and the first contestant otherwise.
/// On a draw both stakes are released and no total changes.
pub fn finish_game_room(
    store: &mut Store,
    sender: &str,
    params: GameRoomFinishParams,
) -> (r: Result<Response, ContractError>)
    ensures
        follows(
            old(store)@,
            final(store)@,
            r,
            old(store)@.room_finished(sender@, params.game_room_key@, params.result@),
        ),
        sender@ != old(store)@.admin ==> r is Err && r->Err_0@ == ErrorView::Unauthorized,
        r is Err ==> final(store)@ == old(store)@,
        old(store)@.wf() ==> final(store)@.wf(),
        r matches Ok(response) ==> response@ == empty_response(),
{
    if !same_text(sender, store.admin.as_str()) {
        return Err(ContractError::Unauthorized {  });
    }
    let room: GameRoomsState = match store.room(params.game_room_key.as_str()) {
        Some(room) => room,
        None => {
            return Err(
                ContractError::GameRoomLoadError { msg: String::from_str("game room not found") },
            );
        },
    };
    match params.result {
        GameRoomStatus::Started {  } => {
            return Err(ContractError::GameRoomNotStarted {  });
        },
        _ => {},
    }
    match room.status {
        GameRoomStatus::Started {  } => {},
        _ => {
            return Err(ContractError::GameRoomNotStarted {  });
        },
    }
    let stake: u128 = cal_min_required(room.prize_pool, store.fee)?;
    let (first_user, first_balance, second_user, second_balance) = match &params.result {
        GameRoomStatus::Win { addr } => {
            proof {
                lemma_winner_gain_is_stake(room.prize_pool as nat, store.fee as nat);
            }
            let gain: u128 = room.prize_pool / 2 - store.fee;
            let loser: String = if room.contestant1 == *addr {
                room.contestant2.clone()
            } else {
                room.contestant1.clone()
            };
            let mut winner_before: Balance = store.balance(addr.as_str());
            let winner_after: Balance = winner_before.unlock_and_increase(stake, gain)?;
            let mut loser_before: Balance = if loser == *addr {
                winner_after
            } else {
                store.balance(loser.as_str())
            };
            let loser_after: Balance = loser_before.unlock_and_decrease(stake, stake)?;
            (addr.clone(), winner_after, loser, loser_after)
        },
        _ => {
            let mut first_before: Balance = store.balance(room.contestant1.as_str());
            let first_after: Balance = first_before.unlock_and_decrease(stake, 0)?;
            let mut second_before: Balance = if room.contestant1 == room.contestant2 {
                first_after
            } else {
                store.balance(room.contestant2.as_str())
            };
            let second_after: Balance = second_before.unlock_and_decrease(stake, 0)?;
            (room.contestant1.clone(), first_after, room.contestant2.clone(), second_after)
        },
    };
    let finished: GameRoomsState = room.get_finish_state(params.result);
    store.set_room(params.game_room_key.as_str(), finished);
    store.set_balance(first_user.as_str(), first_balance);
    store.set_balance(second_user.as_str(), second_balance);
    Ok(Response::new())
}

/// Pays out `amount` of the administrator's balance to the receiver of
/// `params`: the amount leaves the balance, and the token contract is told
/// to move it out of custody. Only the administrator may do so.
pub fn collect_fees(
    store: &mut Store,
    sender: &str,
    params: CollectFeesParams,
) -> (r: Result<Response, ContractError>)
    ensures
        follows(
            old(store)@,
            final(store)@,
            r,
            old(store)@.fees_collected(sender@, params.amount as nat),
        ),
        sender@ != old(store)@.admin ==> r is Err && r->Err_0@ == ErrorView::Unauthorized,
        r is Err ==> final(store)@ == old(store)@,
        old(store)@.wf() ==> final(store)@.wf(),
        r matches Ok(response) ==> response@ == fees_collected_response(
            old(store)@.enigma_duel_token,
            old(store)@.admin,
            params.amount as nat,
            params.receiver@,
        ),
{
    if !same_text(sender, store.admin.as_str()) {
        return Err(ContractError::Unauthorized {  });
    }
    let admin: String = store.admin.clone();
    store.withdraw(admin.as_str(), params.amount)?;
    let message = TokenMsg {
        contract_addr: store.enigma_duel_token.clone(),
        call: TokenCall::Transfer { recipient: params.receiver.clone(), amount: params.amount },
    };
    let withdraw_data = UpdateBalanceMode::Withdraw {
        user: Some(admin),
        amount: params.amount,
        receiver: params.receiver,
    };
    let response = Response::new().add_attribute(
        "action",
        String::from_str("collect fees"),
    ).add_attribute("request_data", withdraw_data.to_string()).add_message(message);
    proof {
        let expected = fees_collected_response(
            old(store)@.enigma_duel_token,
            old(store)@.admin,
            params.amount as nat,
            params.receiver@,
        );
        assert(response@.attributes =~= expected.attributes);
        assert(response@.messages =~= expected.messages);
    }
    Ok(response)
}

/// Handles the request of a user for a deposit or a withdrawal.
///
/// A deposit changes no balance: the token contract is told to move the
/// tokens of the sender into the custody of `contract`, the address of this
/// ledger, and to confirm the deposit. A withdrawal takes the amount from the
/// balance of the sender at once, and then tells the token contract to move
/// the tokens to the receiver.
pub fn update_balance(
    store: &mut Store,
    contract: &str,
    sender: &str,
    update_mode: UpdateBalanceMode,
) -> (r: Result<Response, ContractError>)
    ensures
        follows(
            old(store)@,
            final(store)@,
            r,
            old(store)@.balance_requested(sender@, update_mode@),
        ),
        r is Err ==> final(store)@ == old(store)@,
        old(store)@.wf() ==> final(store)@.wf(),
        r matches Ok(response) ==> response@ == balance_request_response(
            old(store)@.enigma_duel_token,
            contract@,
            sender@,
            update_mode@,
        ),
{
    let message = match &update_mode {
        UpdateBalanceMode::Deposit { amount, .. } => TokenMsg {
            contract_addr: store.enigma_duel_token.clone(),
            call: TokenCall::SendFrom(
                SendFrom {
                    owner: String::from_str(sender),
                    contract: String::from_str(contract),
                    amount: *amount,
                    msg: UpdateBalanceMode::Deposit {
                        user: Some(String::from_str(sender)),
                        amount: *amount,
                    },
                },
            ),
        },
        UpdateBalanceMode::Withdraw { amount, receiver, .. } => {
            store.withdraw(sender, *amount)?;
            TokenMsg {
                contract_addr: store.enigma_duel_token.clone(),
                call: TokenCall::Transfer { recipient: receiver.clone(), amount: *amount },
            }
        },
    };
    let response = Response::new().add_attribute(
        "action",
        String::from_str("update_balance_request"),
    ).add_attribute("request_data", update_mode.to_string()).add_message(message);
    proof {
        let expected = balance_request_response(
            old(store)@.enigma_duel_token,
            contract@,
            sender@,
            update_mode@,
        );
        assert(response@.attributes =~= expected.attributes);
        assert(response@.messages =~= expected.messages);
    }
    Ok(response)
}

/// Handles the confirmation of a balance update. Only the registered token
/// contract is believed: a confirmation from anyone else is rejected as
/// `Unauthorized`. A confirmed deposit is added to the balance of the user it
/// names, a confirmed withdrawal is taken from it.
pub fn update_balance_callback(
    store: &mut Store,
    sender: &str,
    update_mode: UpdateBalanceMode,
) -> (r: Result<Response, ContractError>)
    ensures
        follows(
            old(store)@,
            final(store)@,
            r,
            old(store)@.balance_confirmed(sender@, update_mode@),
        ),
        sender@ != old(store)@.enigma_duel_token ==> r is Err && r->Err_0@
            == ErrorView::Unauthorized,
        r is Err ==> final(store)@ == old(store)@,
        old(store)@.wf() ==> final(store)@.wf(),
        r matches Ok(response) ==> response@ == balance_confirmation_response(update_mode@),
{
    if !same_text(sender, store.enigma_duel_token.as_str()) {
        return Err(ContractError::Unauthorized {  });
    }
    match &update_mode {
        UpdateBalanceMode::Deposit { user: Some(user), amount } => {
            store.deposit(user.as_str(), *amount)?;
        },
        UpdateBalanceMode::Withdraw { user: Some(user), amount, .. } => {
            store.withdraw(user.as_str(), *amount)?;
        },
        _ => {
            return Err(
                ContractError::Std { msg: String::from_str("balance update without a user") },
            );
        },
    }
    let response = Response::new().add_attribute(
        "action",
        String::from_str("update_balance_confirmed"),
    ).add_attribute("update_balance_data", update_mode.to_string());
    assert(response@.attributes =~= balance_confirmation_response(update_mode@).attributes);
    Ok(response)
}

} // verus!
