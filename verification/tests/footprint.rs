use enigmaduel::contract::{execute, instantiate, query, QueryResponse};
use enigmaduel::error::{ContractError, InsufficientBalanceErr};
use enigmaduel::footprint::{query_rooms, query_users, request_rooms, request_users};
use enigmaduel::helpers::create_key_hash;
use enigmaduel::msg::{
    CollectFeesParams, Cw20ReceiveMsg, ExecuteMsg, GameRoomFinishParams, GameRoomIntiParams,
    GameRoomStatus, InstantiateMsg, QueryMsg, UpdateBalanceMode,
};
use enigmaduel::state::{Balance, GameRoomsState};
use enigmaduel::store::Store;

const ADMIN: &str = "addr0000";
const TOKEN: &str = "contract0";
const LEDGER: &str = "contract1";
const ALICE: &str = "addr3333";
const BOB: &str = "addr4444";
const CAROL: &str = "addr5555";
const DAVE: &str = "addr6666";

fn new_store() -> Store {
    let (store, _) = instantiate(InstantiateMsg {
        fee: 100_000_000,
        admin: ADMIN.to_string(),
        enigma_token_duel: TOKEN.to_string(),
    });
    store
}

fn key(first: &str, second: &str) -> String {
    create_key_hash(first.to_string(), second.to_string())
}

fn create(first: &str, second: &str, prize_pool: u128) -> ExecuteMsg {
    ExecuteMsg::CreateGameRoom {
        game_room_init_params: GameRoomIntiParams {
            contestant1: first.to_string(),
            contestant2: second.to_string(),
            prize_pool,
            status: GameRoomStatus::Started {},
        },
    }
}

fn finish(first: &str, second: &str, result: GameRoomStatus) -> ExecuteMsg {
    ExecuteMsg::FinishGameRoom {
        game_room_finish_params: GameRoomFinishParams { game_room_key: key(first, second), result },
    }
}

fn confirm_deposit(user: Option<&str>, amount: u128) -> ExecuteMsg {
    ExecuteMsg::Receive(Cw20ReceiveMsg {
        sender: ALICE.to_string(),
        amount,
        msg: UpdateBalanceMode::Deposit { user: user.map(str::to_string), amount },
    })
}

fn withdraw(amount: u128, receiver: &str) -> ExecuteMsg {
    ExecuteMsg::UpdateBalance {
        update_mode: UpdateBalanceMode::Withdraw {
            user: None,
            amount,
            receiver: receiver.to_string(),
        },
    }
}

fn collect(amount: u128) -> ExecuteMsg {
    ExecuteMsg::CollectFees {
        collect_fees_params: CollectFeesParams { amount, receiver: DAVE.to_string() },
    }
}

/// The whole ledger: four users and two rooms.
fn whole_store() -> Store {
    let mut store = new_store();
    store.deposit(ADMIN, 40).unwrap();
    store.deposit(ALICE, 1_000_000_000).unwrap();
    store.deposit(BOB, 1_000_000_000).unwrap();
    store.deposit(CAROL, 1_000_000_000).unwrap();
    execute(&mut store, LEDGER, ADMIN, create(ALICE, BOB, 1_500_000_000)).unwrap();
    execute(&mut store, LEDGER, ADMIN, create(BOB, CAROL, 400_000_000)).unwrap();
    execute(&mut store, LEDGER, ADMIN, finish(BOB, CAROL, GameRoomStatus::Draw {})).unwrap();
    store
}

fn all_users() -> Vec<String> {
    [ADMIN, ALICE, BOB, CAROL, DAVE, TOKEN, LEDGER].iter().map(|name| name.to_string()).collect()
}

fn all_keys() -> Vec<String> {
    vec![key(ALICE, BOB), key(BOB, ALICE), key(BOB, CAROL), key(CAROL, ALICE), key(ALICE, ALICE)]
}

fn entries(store: &Store) -> (u128, Vec<(bool, Balance)>, Vec<Option<GameRoomsState>>) {
    (
        store.game_rooms_count,
        all_users()
            .iter()
            .map(|user| (store.balances.contains_key(user), store.balance(user)))
            .collect(),
        all_keys().iter().map(|key| store.room(key)).collect(),
    )
}

/// Carries a request out on the part of the whole store that the request
/// concerns, and writes the entries of the part back into the whole store.
fn run_on_part(whole: &mut Store, sender: &str, msg: ExecuteMsg) -> Result<(), ContractError> {
    let mut part = Store::new(
        whole.admin.clone(),
        whole.fee,
        whole.enigma_duel_token.clone(),
    );
    part.game_rooms_count = whole.game_rooms_count;
    let keys = request_rooms(&msg);
    for key in &keys {
        if let Some(room) = whole.room(key) {
            part.set_room(key, room);
        }
    }
    let users = request_users(&part, sender, &msg);
    for user in &users {
        if whole.balances.contains_key(user) {
            part.set_balance(user, whole.balance(user));
        }
    }
    execute(&mut part, LEDGER, sender, msg)?;
    whole.game_rooms_count = part.game_rooms_count;
    for key in &keys {
        if let Some(room) = part.room(key) {
            whole.set_room(key, room);
        }
    }
    for user in &users {
        if part.balances.contains_key(user) {
            whole.set_balance(user, part.balance(user));
        }
    }
    Ok(())
}

fn requests() -> Vec<(&'static str, ExecuteMsg)> {
    vec![
        (ALICE, withdraw(350_000_000, DAVE)),
        (ALICE, withdraw(350_000_001, DAVE)),
        (DAVE, withdraw(1, DAVE)),
        (
            BOB,
            ExecuteMsg::UpdateBalance {
                update_mode: UpdateBalanceMode::Deposit { user: None, amount: 12 },
            },
        ),
        (TOKEN, confirm_deposit(Some(DAVE), 12)),
        (TOKEN, confirm_deposit(Some(ALICE), u128::MAX)),
        (TOKEN, confirm_deposit(None, 12)),
        (ALICE, confirm_deposit(Some(ALICE), 12)),
        (ADMIN, create(ALICE, BOB, 400_000_000)),
        (ADMIN, create(BOB, ALICE, 400_000_000)),
        (ADMIN, create(BOB, CAROL, 900_000_000)),
        (ADMIN, create(CAROL, ALICE, 1_000_000_000)),
        (ADMIN, create(CAROL, DAVE, 200_000_000)),
        (ADMIN, create(ALICE, ALICE, 400_000_000)),
        (ADMIN, create(CAROL, CAROL, 1_000_000_000)),
        (ADMIN, create(CAROL, CAROL, 1_000_000_000)),
        (ADMIN, create(ALICE, BOB, 1)),
        (CAROL, create(CAROL, ALICE, 200_000_000)),
        (ADMIN, finish(ALICE, BOB, GameRoomStatus::Win { addr: ALICE.to_string() })),
        (ADMIN, finish(ALICE, BOB, GameRoomStatus::Win { addr: BOB.to_string() })),
        (ADMIN, finish(ALICE, BOB, GameRoomStatus::Win { addr: CAROL.to_string() })),
        (ADMIN, finish(ALICE, BOB, GameRoomStatus::Draw {})),
        (ADMIN, finish(ALICE, BOB, GameRoomStatus::Started {})),
        (ADMIN, finish(BOB, CAROL, GameRoomStatus::Draw {})),
        (ADMIN, finish(CAROL, ALICE, GameRoomStatus::Draw {})),
        (BOB, finish(ALICE, BOB, GameRoomStatus::Win { addr: BOB.to_string() })),
        (ADMIN, collect(40)),
        (ADMIN, collect(41)),
        (ALICE, collect(1)),
    ]
}

#[test]
fn request_on_its_part_of_the_store_does_what_it_does_on_the_whole() {
    let count = requests().len();
    for index in 0..count {
        let (sender, msg) = requests().remove(index);
        let (_, again) = requests().remove(index);
        let mut whole = whole_store();
        let mut by_parts = whole_store();
        let expected = execute(&mut whole, LEDGER, sender, msg).map(|_| ());
        let got = run_on_part(&mut by_parts, sender, again);
        assert_eq!(got, expected, "request {}", index);
        assert_eq!(entries(&by_parts), entries(&whole), "request {}", index);
    }
}

#[test]
fn requests_in_a_row_on_their_parts_do_what_they_do_on_the_whole() {
    let mut whole = whole_store();
    let mut by_parts = whole_store();
    let mut succeeded = 0;
    for ((sender, msg), (_, again)) in requests().into_iter().zip(requests()) {
        let expected = execute(&mut whole, LEDGER, sender, msg).map(|_| ());
        let got = run_on_part(&mut by_parts, sender, again);
        if expected.is_ok() {
            succeeded += 1;
        }
        assert_eq!(got, expected);
        assert_eq!(entries(&by_parts), entries(&whole));
    }
    assert!(succeeded >= 8);
    assert!(succeeded < requests().len());
}

#[test]
fn rooms_of_requests_are_listed() {
    assert_eq!(request_rooms(&create(ALICE, BOB, 5)), vec![key(ALICE, BOB)]);
    assert_eq!(
        request_rooms(&finish(BOB, ALICE, GameRoomStatus::Draw {})),
        vec![key(BOB, ALICE)]
    );
    assert_eq!(request_rooms(&withdraw(5, ALICE)), Vec::<String>::new());
    assert_eq!(request_rooms(&collect(5)), Vec::<String>::new());
    assert_eq!(request_rooms(&confirm_deposit(Some(ALICE), 5)), Vec::<String>::new());
}

#[test]
fn users_of_requests_are_listed() {
    let store = whole_store();
    assert_eq!(request_users(&store, CAROL, &withdraw(5, ALICE)), vec![CAROL]);
    assert_eq!(request_users(&store, CAROL, &create(ALICE, BOB, 5)), vec![ALICE, BOB]);
    assert_eq!(request_users(&store, CAROL, &create(ALICE, ALICE, 5)), vec![ALICE, ALICE]);
    assert_eq!(
        request_users(&store, CAROL, &finish(ALICE, BOB, GameRoomStatus::Draw {})),
        vec![ALICE, BOB]
    );
    assert_eq!(
        request_users(
            &store,
            CAROL,
            &finish(ALICE, BOB, GameRoomStatus::Win { addr: DAVE.to_string() })
        ),
        vec![ALICE, BOB, DAVE]
    );
    assert_eq!(
        request_users(
            &store,
            CAROL,
            &finish(CAROL, ALICE, GameRoomStatus::Win { addr: DAVE.to_string() })
        ),
        vec![DAVE]
    );
    assert_eq!(
        request_users(&store, CAROL, &finish(CAROL, ALICE, GameRoomStatus::Draw {})),
        Vec::<String>::new()
    );
    assert_eq!(request_users(&store, CAROL, &collect(5)), vec![ADMIN]);
    assert_eq!(request_users(&store, CAROL, &confirm_deposit(Some(BOB), 5)), vec![BOB]);
    assert_eq!(request_users(&store, CAROL, &confirm_deposit(None, 5)), Vec::<String>::new());
}

#[test]
fn entries_of_queries_are_listed() {
    let store = whole_store();
    let balance = QueryMsg::GetUserBalance { user: ALICE.to_string() };
    let locked = QueryMsg::GetUserLockedBalance { user: BOB.to_string() };
    let room = QueryMsg::GetGameRoomState { game_room_key: key(ALICE, BOB) };
    assert_eq!(query_users(&store, &balance), vec![ALICE]);
    assert_eq!(query_users(&store, &locked), vec![BOB]);
    assert_eq!(query_users(&store, &room), Vec::<String>::new());
    assert_eq!(query_users(&store, &QueryMsg::GetCollectedFees {}), vec![ADMIN]);
    assert_eq!(query_users(&store, &QueryMsg::GetTotalGames {}), Vec::<String>::new());
    assert_eq!(query_rooms(&room), vec![key(ALICE, BOB)]);
    assert_eq!(query_rooms(&balance), Vec::<String>::new());
    assert_eq!(query_rooms(&QueryMsg::GetTotalGames {}), Vec::<String>::new());
}

#[test]
fn query_on_its_part_of_the_store_gives_the_answer_of_the_whole() {
    let whole = whole_store();
    let queries = || {
        vec![
            QueryMsg::GetUserBalance { user: ALICE.to_string() },
            QueryMsg::GetUserBalance { user: DAVE.to_string() },
            QueryMsg::GetUserLockedBalance { user: BOB.to_string() },
            QueryMsg::GetGameRoomState { game_room_key: key(ALICE, BOB) },
            QueryMsg::GetGameRoomState { game_room_key: key(BOB, CAROL) },
            QueryMsg::GetGameRoomState { game_room_key: key(CAROL, ALICE) },
            QueryMsg::GetCollectedFees {},
            QueryMsg::GetTotalGames {},
        ]
    };
    let expected = vec![
        QueryResponse::UserBalance(350_000_000),
        QueryResponse::UserBalance(0),
        QueryResponse::UserLockedBalance(650_000_000),
        QueryResponse::GameRoomState(Some(GameRoomsState {
            contestant1: ALICE.to_string(),
            contestant2: BOB.to_string(),
            prize_pool: 1_500_000_000,
            status: GameRoomStatus::Started {},
        })),
        QueryResponse::GameRoomState(Some(GameRoomsState {
            contestant1: BOB.to_string(),
            contestant2: CAROL.to_string(),
            prize_pool: 0,
            status: GameRoomStatus::Draw {},
        })),
        QueryResponse::GameRoomState(None),
        QueryResponse::CollectedFees(40),
        QueryResponse::TotalGames(2),
    ];
    for ((msg, again), answer) in queries().into_iter().zip(queries()).zip(expected) {
        let mut part =
            Store::new(whole.admin.clone(), whole.fee, whole.enigma_duel_token.clone());
        part.game_rooms_count = whole.game_rooms_count;
        for key in query_rooms(&msg) {
            if let Some(room) = whole.room(&key) {
                part.set_room(&key, room);
            }
        }
        for user in query_users(&part, &msg) {
            if whole.balances.contains_key(&user) {
                part.set_balance(&user, whole.balance(&user));
            }
        }
        assert_eq!(query(&part, msg), answer);
        assert_eq!(query(&whole, again), answer);
    }
}

#[test]
fn errors_have_messages() {
    assert_eq!(ContractError::Std { msg: "broken".to_string() }.to_string(), "broken");
    assert_eq!(ContractError::Unauthorized {}.to_string(), "Unauthorized");
    assert_eq!(
        ContractError::InsufficientBalance(InsufficientBalanceErr {
            min_required: 2,
            current_balance: 1,
            user: ALICE.to_string(),
        })
        .to_string(),
        "insufficient Balance"
    );
    assert_eq!(ContractError::GameRoomNotStarted {}.to_string(), "Game room is not started yet");
    assert_eq!(ContractError::GameRoomAlreadyStarted {}.to_string(), "Game room already started");
    assert_eq!(
        ContractError::GameRoomLoadError { msg: "gone".to_string() }.to_string(),
        "Game room load error"
    );
    assert_eq!(
        ContractError::InsufficientPrizePool { prize_pool: 1, fee: 1 }.to_string(),
        "Prize pool does not cover the fees"
    );
    assert_eq!(ContractError::ArithmeticError {}.to_string(), "Arithmetic error");
}
