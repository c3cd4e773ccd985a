//! The store: configuration, balances and rooms, with the transitions of the
//! balance ledger.
//!
//! The transitions are defined on [`StoreView`], the mathematical model of a
//! store. Each of them yields the next store or the error that rejects the
//! request. The executable operations on [`Store`] follow them exactly, and
//! leave the store untouched when they reject a request.

use vstd::prelude::*;
use vstd::hash_map::StringHashMap;
use vstd::string::*;
use crate::error::{ContractError, ErrorView, InsufficientBalanceErr, InsufficientBalanceView};
use crate::state::{Balance, GameRoomView, GameRoomsState};

verus! {

/// Everything the ledger keeps between requests.
pub struct Store {
    /// The address that may open and finish rooms and collect fees.
    pub admin: String,
    /// The fee set aside for each contestant of a room.
    pub fee: u128,
    /// The address of the token contract whose confirmations are trusted.
    pub enigma_duel_token: String,
    /// The number of rooms opened so far.
    pub game_rooms_count: u128,
    /// The balance of each user, by address.
    pub balances: StringHashMap<Balance>,
    /// The latest room of each pair of contestants, by room key.
    pub game_rooms: StringHashMap<GameRoomsState>,
}

/// Mathematical model of [`Store`].
#[verifier::ext_equal]
pub struct StoreView {
    pub admin: Seq<char>,
    pub fee: nat,
    pub enigma_duel_token: Seq<char>,
    pub game_rooms_count: nat,
    pub balances: Map<Seq<char>, Balance>,
    pub game_rooms: Map<Seq<char>, GameRoomView>,
}

impl View for Store {
    type V = StoreView;

    open spec fn view(&self) -> StoreView {
        StoreView {
            admin: self.admin@,
            fee: self.fee as nat,
            enigma_duel_token: self.enigma_duel_token@,
            game_rooms_count: self.game_rooms_count as nat,
            balances: self.balances@,
            game_rooms: self.game_rooms@.map_values(|room: GameRoomsState| room@),
        }
    }
}

/// The outcome `r` of an operation and the store `after` it are what the
/// transition result `expected` prescribes for a store that was `before`: on
/// success the store is the next store, on failure the error is the one
/// prescribed and the store is as it was.
pub open spec fn follows<T>(
    before: StoreView,
    after: StoreView,
    r: Result<T, ContractError>,
    expected: Result<StoreView, ErrorView>,
) -> bool {
    match r {
        Ok(_) => expected == Ok::<StoreView, ErrorView>(after),
        Err(e) => expected == Err::<StoreView, ErrorView>(e@) && after == before,
    }
}

impl StoreView {
    /// Every balance locks no more than it holds.
    pub open spec fn wf(self) -> bool {
        forall|user: Seq<char>| #[trigger]
            self.balances.contains_key(user) ==> self.balances[user].wf()
    }

    /// The balance of a user. A user without an entry has the empty balance.
    pub open spec fn balance_of(self, user: Seq<char>) -> Balance {
        if self.balances.contains_key(user) {
            self.balances[user]
        } else {
            Balance { total: 0, locked: 0 }
        }
    }

    /// The store with the balance of one user replaced.
    pub open spec fn with_balance(self, user: Seq<char>, balance: Balance) -> StoreView {
        StoreView { balances: self.balances.insert(user, balance), ..self }
    }

    /// The error that tells a user that `amount` is more than is available.
    pub open spec fn insufficient(self, user: Seq<char>, amount: nat) -> ErrorView {
        ErrorView::InsufficientBalance(
            InsufficientBalanceView {
                min_required: amount,
                current_balance: self.balance_of(user).available(),
                user,
            },
        )
    }

    /// A deposit: `amount` is added to the total of `user`.
    pub open spec fn deposited(self, user: Seq<char>, amount: nat) -> Result<StoreView, ErrorView> {
        match self.balance_of(user).increased(amount) {
            Some(balance) => Ok(self.with_balance(user, balance)),
            None => Err(ErrorView::ArithmeticError),
        }
    }

    /// A withdrawal: `amount` is taken from the total of `user`, who must
    /// have that much available.
    pub open spec fn withdrawn(self, user: Seq<char>, amount: nat) -> Result<StoreView, ErrorView> {
        match self.balance_of(user).decreased(amount) {
            Some(balance) => Ok(self.with_balance(user, balance)),
            None => Err(self.insufficient(user, amount)),
        }
    }

    /// A lock: `amount` moves from the available to the locked part of the
    /// balance of `user`, who must have that much available.
    pub open spec fn locked(self, user: Seq<char>, amount: nat) -> Result<StoreView, ErrorView> {
        match self.balance_of(user).with_locked(amount) {
            Some(balance) => Ok(self.with_balance(user, balance)),
            None => Err(self.insufficient(user, amount)),
        }
    }

    /// A release with a gain: `unlock_amount` leaves the locked part of the
    /// balance of `user` and `increase_amount` is added to the total.
    pub open spec fn released_with_gain(
        self,
        user: Seq<char>,
        unlock_amount: nat,
        increase_amount: nat,
    ) -> Result<StoreView, ErrorView> {
        match self.balance_of(user).released_with_gain(unlock_amount, increase_amount) {
            Some(balance) => Ok(self.with_balance(user, balance)),
            None => Err(ErrorView::ArithmeticError),
        }
    }

    /// A release with a loss: `unlock_amount` leaves the locked part of the
    /// balance of `user` and `decrease_amount` is taken from the total.
    pub open spec fn released_with_loss(
        self,
        user: Seq<char>,
        unlock_amount: nat,
        decrease_amount: nat,
    ) -> Result<StoreView, ErrorView> {
        match self.balance_of(user).released_with_loss(unlock_amount, decrease_amount) {
            Some(balance) => Ok(self.with_balance(user, balance)),
            None => Err(ErrorView::ArithmeticError),
        }
    }
}

/// Whether two texts are the same.
pub fn same_text(left: &str, right: &str) -> (same: bool)
    ensures
        same == (left@ == right@),
{
    let left_owned: String = String::from_str(left);
    let right_owned: String = String::from_str(right);
    left_owned == right_owned
}

impl Store {
    /// A store without balances or rooms.
    pub fn new(admin: String, fee: u128, enigma_duel_token: String) -> (store: Store)
        ensures
            store@ == (StoreView {
                admin: admin@,
                fee: fee as nat,
                enigma_duel_token: enigma_duel_token@,
                game_rooms_count: 0,
                balances: Map::empty(),
                game_rooms: Map::empty(),
            }),
            store@.wf(),
    {
        let store = Store {
            admin,
            fee,
            enigma_duel_token,
            game_rooms_count: 0,
            balances: StringHashMap::new(),
            game_rooms: StringHashMap::new(),
        };
        assert(store@.game_rooms =~= Map::empty());
        store
    }

    /// The balance of a user. A user without an entry has the empty balance.
    pub fn balance(&self, user: &str) -> (balance: Balance)
        ensures
            balance == self@.balance_of(user@),
    {
        match self.balances.get(user) {
            Some(balance) => *balance,
            None => Balance::new_zero(),
        }
    }

    /// Replaces the balance of a user.
    pub fn set_balance(&mut self, user: &str, balance: Balance)
        ensures
            final(self)@ == old(self)@.with_balance(user@, balance),
            old(self)@.wf() && balance.wf() ==> final(self)@.wf(),
    {
        self.balances.insert(String::from_str(user), balance);
        assert(old(self)@.wf() && balance.wf() ==> self@.wf()) by {
            if old(self)@.wf() && balance.wf() {
                assert forall|other: Seq<char>| #[trigger]
                    self@.balances.contains_key(other) implies self@.balances[other].wf() by {
                    if other != user@ {
                        assert(old(self)@.balances.contains_key(other));
                    }
                }
            }
        }
    }

    /// The room stored under a key, if there is one.
    pub fn room(&self, key: &str) -> (room: Option<GameRoomsState>)
        ensures
            match room {
                Some(found) => self@.game_rooms.contains_key(key@) && found@
                    == self@.game_rooms[key@],
                None => !self@.game_rooms.contains_key(key@),
            },
    {
        match self.game_rooms.get(key) {
            Some(found) => Some(found.clone()),
            None => None,
        }
    }

    /// Stores a room under a key, in place of the room that was there.
    pub fn set_room(&mut self, key: &str, room: GameRoomsState)
        ensures
            final(self)@ == (StoreView {
                game_rooms: old(self)@.game_rooms.insert(key@, room@),
                ..old(self)@
            }),
            old(self)@.wf() ==> final(self)@.wf(),
    {
        self.game_rooms.insert(String::from_str(key), room);
        assert(self@.game_rooms =~= old(self)@.game_rooms.insert(key@, room@));
    }

    fn insufficient_balance(&self, user: &str, amount: u128) -> (e: ContractError)
        ensures
            e@ == self@.insufficient(user@, amount as nat),
    {
        ContractError::InsufficientBalance(
            InsufficientBalanceErr {
                min_required: amount,
                current_balance: self.balance(user).available_balance(),
                user: String::from_str(user),
            },
        )
    }

    /// Adds `amount` to the total of `user`.
    pub fn deposit(&mut self, user: &str, amount: u128) -> (r: Result<(), ContractError>)
        ensures
            follows(
                old(self)@,
                final(self)@,
                r,
                old(self)@.deposited(user@, amount as nat),
            ),
            old(self)@.wf() ==> final(self)@.wf(),
    {
        let balance: Balance = self.balance(user).total_increase(amount)?;
        self.set_balance(user, balance);
        Ok(())
    }

    /// Takes `amount` from the total of `user`. Rejected with
    /// `InsufficientBalance` if the user has less than `amount` available.
    pub fn withdraw(&mut self, user: &str, amount: u128) -> (r: Result<(), ContractError>)
        ensures
            follows(
                old(self)@,
                final(self)@,
                r,
                old(self)@.withdrawn(user@, amount as nat),
            ),
            old(self)@.wf() ==> final(self)@.wf(),
    {
        match self.balance(user).total_decrease(amount) {
            Ok(balance) => {
                self.set_balance(user, balance);
                Ok(())
            },
            Err(_) => Err(self.insufficient_balance(user, amount)),
        }
    }

    /// Moves `amount` from the available to the locked part of the balance of
    /// `user`. Rejected with `InsufficientBalance` if the user has less than
    /// `amount` available.
    pub fn lock(&mut self, user: &str, amount: u128) -> (r: Result<(), ContractError>)
        ensures
            follows(old(self)@, final(self)@, r, old(self)@.locked(user@, amount as nat)),
            old(self)@.wf() ==> final(self)@.wf(),
    {
        let mut current: Balance = self.balance(user);
        match current.lock(amount) {
            Ok(balance) => {
                self.set_balance(user, balance);
                Ok(())
            },
            Err(_) => Err(self.insufficient_balance(user, amount)),
        }
    }

    /// Releases `unlock_amount` from the locked part of the balance of `user`
    /// and adds `increase_amount` to the total.
    pub fn unlock_and_increase(
        &mut self,
        user: &str,
        unlock_amount: u128,
        increase_amount: u128,
    ) -> (r: Result<(), ContractError>)
        ensures
            follows(
                old(self)@,
                final(self)@,
                r,
                old(self)@.released_with_gain(
                    user@,
                    unlock_amount as nat,
                    increase_amount as nat,
                ),
            ),
            old(self)@.wf() ==> final(self)@.wf(),
    {
        let mut current: Balance = self.balance(user);
        let balance: Balance = current.unlock_and_increase(unlock_amount, increase_amount)?;
        self.set_balance(user, balance);
        Ok(())
    }

    /// Releases `unlock_amount` from the locked part of the balance of `user`
    /// and takes `decrease_amount` from the total.
    pub fn unlock_and_decrease(
        &mut self,
        user: &str,
        unlock_amount: u128,
        decrease_amount: u128,
    ) -> (r: Result<(), ContractError>)
        ensures
            follows(
                old(self)@,
                final(self)@,
                r,
                old(self)@.released_with_loss(
                    user@,
                    unlock_amount as nat,
                    decrease_amount as nat,
                ),
            ),
            old(self)@.wf() ==> final(self)@.wf(),
    {
        let mut current: Balance = self.balance(user);
        let balance: Balance = current.unlock_and_decrease(unlock_amount, decrease_amount)?;
        self.set_balance(user, balance);
        Ok(())
    }
}

} // verus!
