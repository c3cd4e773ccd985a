use std::collections::HashMap;

use enigmaduel::contract::{execute, instantiate, query, QueryResponse};
use enigmaduel::error::ContractError;
use enigmaduel::msg::{
    CollectFeesParams, Cw20ReceiveMsg, ExecuteMsg, GameRoomFinishParams, GameRoomIntiParams,
    GameRoomStatus, InstantiateMsg, QueryMsg, UpdateBalanceMode,
};
use enigmaduel::response::{Response, TokenCall};
use enigmaduel::state::GameRoomsState;
use enigmaduel::store::Store;

const ENIGMA_ADMIN: &str = "addr0000";
const USER1: &str = "addr3333";
const USER2: &str = "addr4444";
const USER3: &str = "addr5555";
const EDT_ADDR: &str = "contract0";
const ENIGMA_ADDR: &str = "contract1";

/// The ledger together with a token contract that does what it is told.
struct MockApp {
    store: Store,
    token_balances: HashMap<String, u128>,
    allowances: HashMap<String, u128>,
}

fn get_app_with_fee(fee: u128) -> MockApp {
    let (store, _) = instantiate(InstantiateMsg {
        fee,
        admin: ENIGMA_ADMIN.to_string(),
        enigma_token_duel: EDT_ADDR.to_string(),
    });
    let mut token_balances = HashMap::new();
    token_balances.insert(USER1.to_string(), 10_000_000_000u128);
    token_balances.insert(USER2.to_string(), 10_000_000_000u128);
    MockApp { store, token_balances, allowances: HashMap::new() }
}

fn get_app() -> MockApp {
    get_app_with_fee(100_000_000)
}

fn token_balance(app: &MockApp, address: &str) -> u128 {
    app.token_balances.get(address).copied().unwrap_or(0)
}

fn move_tokens(app: &mut MockApp, from: &str, to: &str, amount: u128) {
    let left = token_balance(app, from).checked_sub(amount).expect("token balance too low");
    app.token_balances.insert(from.to_string(), left);
    let grown = token_balance(app, to) + amount;
    app.token_balances.insert(to.to_string(), grown);
}

/// Carries out a request and then everything the response asks of the token
/// contract, confirmations included.
fn run(app: &mut MockApp, sender: &str, msg: ExecuteMsg) -> Result<Response, ContractError> {
    let response = execute(&mut app.store, ENIGMA_ADDR, sender, msg)?;
    for message in &response.messages {
        assert_eq!(message.contract_addr, EDT_ADDR);
        match &message.call {
            TokenCall::SendFrom(call) => {
                let allowed = app.allowances.get(&call.owner).copied().unwrap_or(0);
                assert!(allowed >= call.amount);
                app.allowances.insert(call.owner.clone(), allowed - call.amount);
                let owner = call.owner.clone();
                let contract = call.contract.clone();
                move_tokens(app, &owner, &contract, call.amount);
                execute(
                    &mut app.store,
                    ENIGMA_ADDR,
                    EDT_ADDR,
                    ExecuteMsg::Receive(Cw20ReceiveMsg {
                        sender: call.owner.clone(),
                        amount: call.amount,
                        msg: call.msg.clone(),
                    }),
                )?;
            }
            TokenCall::Transfer { recipient, amount } => {
                let recipient = recipient.clone();
                move_tokens(app, ENIGMA_ADDR, &recipient, *amount);
            }
        }
    }
    Ok(response)
}

fn increase_allowance(app: &mut MockApp, user: &str) {
    let allowed = app.allowances.get(user).copied().unwrap_or(0);
    app.allowances.insert(user.to_string(), allowed + 1_000_000_000);
}

fn deposit(app: &mut MockApp, user: &str) {
    run(
        app,
        user,
        ExecuteMsg::UpdateBalance {
            update_mode: UpdateBalanceMode::Deposit {
                user: Some(user.to_string()),
                amount: 1_000_000_000,
            },
        },
    )
    .unwrap();
}

fn withdraw(app: &mut MockApp, user: &str) {
    run(
        app,
        USER1,
        ExecuteMsg::UpdateBalance {
            update_mode: UpdateBalanceMode::Withdraw {
                user: Some(user.to_string()),
                amount: 1_000_000_000,
                receiver: user.to_string(),
            },
        },
    )
    .unwrap();
}

fn create_gr(app: &mut MockApp) -> String {
    match run(
        app,
        ENIGMA_ADMIN,
        ExecuteMsg::CreateGameRoom {
            game_room_init_params: GameRoomIntiParams {
                contestant1: USER1.to_string(),
                contestant2: USER2.to_string(),
                prize_pool: 1_500_000_000,
                status: GameRoomStatus::Started {},
            },
        },
    ) {
        Ok(response) => {
            assert_eq!(response.attributes[1].key, "room_key");
            response.attributes[1].value.clone()
        }
        Err(err) => {
            println!("error: {}", err.to_string());
            err.to_string()
        }
    }
}

fn finish_gr(app: &mut MockApp, game_room_key: String, result: GameRoomStatus) {
    run(
        app,
        ENIGMA_ADMIN,
        ExecuteMsg::FinishGameRoom {
            game_room_finish_params: GameRoomFinishParams { game_room_key, result },
        },
    )
    .unwrap();
}

fn collect_fees(app: &mut MockApp, receiver: String, amount: u128) {
    run(
        app,
        ENIGMA_ADMIN,
        ExecuteMsg::CollectFees { collect_fees_params: CollectFeesParams { amount, receiver } },
    )
    .unwrap();
}

fn user_balance(app: &MockApp, user: &str) -> u128 {
    match query(&app.store, QueryMsg::GetUserBalance { user: user.to_string() }) {
        QueryResponse::UserBalance(amount) => amount,
        other => panic!("unexpected answer {:?}", other),
    }
}

fn locked_balance(app: &MockApp, user: &str) -> u128 {
    match query(&app.store, QueryMsg::GetUserLockedBalance { user: user.to_string() }) {
        QueryResponse::UserLockedBalance(amount) => amount,
        other => panic!("unexpected answer {:?}", other),
    }
}

fn room_state(app: &MockApp, game_room_key: String) -> Option<GameRoomsState> {
    match query(&app.store, QueryMsg::GetGameRoomState { game_room_key }) {
        QueryResponse::GameRoomState(room) => room,
        other => panic!("unexpected answer {:?}", other),
    }
}

fn total_games(app: &MockApp) -> u128 {
    match query(&app.store, QueryMsg::GetTotalGames {}) {
        QueryResponse::TotalGames(count) => count,
        other => panic!("unexpected answer {:?}", other),
    }
}

fn collected_fees(app: &MockApp) -> u128 {
    match query(&app.store, QueryMsg::GetCollectedFees {}) {
        QueryResponse::CollectedFees(amount) => amount,
        other => panic!("unexpected answer {:?}", other),
    }
}

fn two_funded_contestants(fee: u128) -> MockApp {
    let mut app = get_app_with_fee(fee);
    increase_allowance(&mut app, USER1);
    deposit(&mut app, USER1);
    increase_allowance(&mut app, USER2);
    deposit(&mut app, USER2);
    app
}

#[test]
fn test_deposit() {
    let mut app = get_app();

    increase_allowance(&mut app, USER1);
    deposit(&mut app, USER1);

    let enigma_balance = user_balance(&app, USER1);
    let edt_balance = token_balance(&app, ENIGMA_ADDR);

    assert_eq!(enigma_balance, 1000000000);
    println!("{}", edt_balance);
    assert_eq!(edt_balance, 1000000000);
}

#[test]
fn test_withdraw() {
    let mut app = get_app();

    increase_allowance(&mut app, USER1);
    deposit(&mut app, USER1);
    withdraw(&mut app, USER1);

    let enigma_balance = user_balance(&app, USER1);
    let edt_balance = token_balance(&app, USER1);

    assert_eq!(enigma_balance, 0);
    assert_eq!(edt_balance, 10000000000);
}

#[test]
fn test_create_game_room() {
    let mut app = two_funded_contestants(100_000_000);

    let game_room_key = create_gr(&mut app);

    let gr_state = room_state(&app, game_room_key);
    let gr_count = total_games(&app);

    // each contestant stakes (1_500_000_000 - 2 * 100_000_000) / 2 = 650_000_000
    assert_eq!(locked_balance(&app, USER1), 650000000);
    assert_eq!(locked_balance(&app, USER2), 650000000);
    assert_eq!(user_balance(&app, USER1), 350000000);
    assert_eq!(user_balance(&app, USER2), 350000000);
    assert_eq!(gr_state.unwrap().status, GameRoomStatus::Started {});
    assert_eq!(gr_count, 1);

    // without a fee each contestant stakes half the prize pool
    let mut free = two_funded_contestants(0);
    let free_key = create_gr(&mut free);
    assert_eq!(user_balance(&free, USER1), 250000000);
    assert_eq!(user_balance(&free, USER2), 250000000);
    assert_eq!(room_state(&free, free_key).unwrap().status, GameRoomStatus::Started {});
    assert_eq!(total_games(&free), 1);
}

#[test]
fn test_finish_game_room_win() {
    let mut app = two_funded_contestants(100_000_000);

    let game_room_key = create_gr(&mut app);

    finish_gr(&mut app, game_room_key.clone(), GameRoomStatus::Win { addr: USER1.to_string() });

    let gr_state = room_state(&app, game_room_key).unwrap();

    // the winner gains 1_500_000_000 / 2 - 100_000_000 on top of the stake that is released
    assert_eq!(user_balance(&app, USER1), 1650000000);
    // the loser forfeits the stake of 650_000_000
    assert_eq!(user_balance(&app, USER2), 350000000);
    assert_eq!(locked_balance(&app, USER1), 0);
    assert_eq!(locked_balance(&app, USER2), 0);
    // what the winner gains is what the loser loses: nothing is left over
    assert_eq!(collected_fees(&app), 0);
    assert_eq!(user_balance(&app, USER1) + user_balance(&app, USER2), 2_000_000_000);

    assert_eq!(gr_state.status, GameRoomStatus::Win { addr: USER1.to_string() });
    assert_eq!(gr_state.prize_pool, 0);

    // without a fee the loser is left with 1_000_000_000 - 1_500_000_000 / 2
    let mut free = two_funded_contestants(0);
    let free_key = create_gr(&mut free);
    finish_gr(&mut free, free_key, GameRoomStatus::Win { addr: USER1.to_string() });
    assert_eq!(user_balance(&free, USER1), 1750000000);
    assert_eq!(user_balance(&free, USER2), 250000000);
}

#[test]
fn test_finish_game_room_draw() {
    let mut app = two_funded_contestants(100_000_000);

    let game_room_key = create_gr(&mut app);

    finish_gr(&mut app, game_room_key.clone(), GameRoomStatus::Draw {});

    let gr_state = room_state(&app, game_room_key).unwrap();
    assert_eq!(user_balance(&app, USER1), 1000000000);
    assert_eq!(user_balance(&app, USER2), 1000000000);
    assert_eq!(locked_balance(&app, USER1), 0);
    assert_eq!(locked_balance(&app, USER2), 0);

    assert_eq!(gr_state.status, GameRoomStatus::Draw {});
}

#[test]
fn test_collect_fees() {
    let mut app = two_funded_contestants(100_000_000);

    let game_room_key = create_gr(&mut app);

    finish_gr(&mut app, game_room_key, GameRoomStatus::Win { addr: USER1.to_string() });
    let admin_bal = user_balance(&app, ENIGMA_ADMIN);

    assert_eq!(collected_fees(&app), admin_bal);

    collect_fees(&mut app, USER3.to_string(), admin_bal);

    assert_eq!(admin_bal, token_balance(&app, USER3));
    assert_eq!(0, user_balance(&app, ENIGMA_ADMIN));
}

#[test]
fn collect_fees_pays_out_of_the_admin_balance() {
    let mut app = get_app();
    app.token_balances.insert(ENIGMA_ADMIN.to_string(), 1_000_000_000);
    increase_allowance(&mut app, ENIGMA_ADMIN);
    deposit(&mut app, ENIGMA_ADMIN);
    assert_eq!(collected_fees(&app), 1_000_000_000);

    let response = run(
        &mut app,
        ENIGMA_ADMIN,
        ExecuteMsg::CollectFees {
            collect_fees_params: CollectFeesParams {
                amount: 200_000_000,
                receiver: USER3.to_string(),
            },
        },
    )
    .unwrap();

    assert_eq!(response.attributes[0].key, "action");
    assert_eq!(response.attributes[0].value, "collect fees");
    assert_eq!(response.attributes[1].key, "request_data");
    assert_eq!(
        response.attributes[1].value,
        "withdraw 200000000 tokens for user addr5555 from addr0000 "
    );
    assert_eq!(response.messages.len(), 1);
    assert_eq!(
        response.messages[0].call,
        TokenCall::Transfer { recipient: USER3.to_string(), amount: 200_000_000 }
    );
    assert_eq!(token_balance(&app, USER3), 200_000_000);
    assert_eq!(user_balance(&app, ENIGMA_ADMIN), 800_000_000);
    assert_eq!(token_balance(&app, ENIGMA_ADDR), 800_000_000);
}
