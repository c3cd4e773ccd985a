//! Balances, rooms, and the store that holds them.

use vstd::prelude::*;
use vstd::string::*;
use crate::error::{ContractError, ErrorView};
use crate::msg::{GameRoomStatus, StatusView};

verus! {

/// The tokens a user holds in custody. `total` counts every token of the
/// user, `locked` the part of them that is staked in running rooms.
#[derive(Clone, Copy, Debug, PartialEq, Eq, Structural)]
pub struct Balance {
    pub total: u128,
    pub locked: u128,
}

impl Balance {
    /// No more is locked than the user holds.
    pub open spec fn wf(self) -> bool {
        self.locked <= self.total
    }

    /// What the user may withdraw or stake: the total less the locked part.
    /// A balance that locks more than its total has nothing available.
    pub open spec fn available(self) -> nat {
        if self.locked <= self.total {
            (self.total - self.locked) as nat
        } else {
            0
        }
    }

    /// The balance with `amount` added to the total, if that fits.
    pub open spec fn increased(self, amount: nat) -> Option<Balance> {
        if self.total + amount <= u128::MAX {
            Some(Balance { total: (self.total + amount) as u128, locked: self.locked })
        } else {
            None
        }
    }

    /// The balance with `amount` taken from the available part.
    pub open spec fn decreased(self, amount: nat) -> Option<Balance> {
        if amount <= self.available() {
            Some(Balance { total: (self.total - amount) as u128, locked: self.locked })
        } else {
            None
        }
    }

    /// The balance with `amount` moved from the available to the locked part.
    pub open spec fn with_locked(self, amount: nat) -> Option<Balance> {
        if amount <= self.available() {
            Some(Balance { total: self.total, locked: (self.locked + amount) as u128 })
        } else {
            None
        }
    }

    /// The balance with `unlock_amount` released from the locked part and
    /// `increase_amount` added to the total.
    pub open spec fn released_with_gain(
        self,
        unlock_amount: nat,
        increase_amount: nat,
    ) -> Option<Balance> {
        if unlock_amount <= self.locked && self.total + increase_amount <= u128::MAX {
            Some(
                Balance {
                    total: (self.total + increase_amount) as u128,
                    locked: (self.locked - unlock_amount) as u128,
                },
            )
        } else {
            None
        }
    }

    /// The balance with `unlock_amount` released from the locked part and
    /// `decrease_amount` taken from what is available after that.
    pub open spec fn released_with_loss(
        self,
        unlock_amount: nat,
        decrease_amount: nat,
    ) -> Option<Balance> {
        if unlock_amount <= self.locked {
            let released = Balance {
                total: self.total,
                locked: (self.locked - unlock_amount) as u128,
            };
            released.decreased(decrease_amount)
        } else {
            None
        }
    }

    /// The empty balance.
    pub fn new_zero() -> (balance: Self)
        ensures
            balance == (Balance { total: 0, locked: 0 }),
    {
        Balance { total: 0, locked: 0 }
    }

    /// Adds `amount` to the total. Fails if the total leaves the range of
    /// the amounts.
    pub fn total_increase(self, amount: u128) -> (r: Result<Balance, ContractError>)
        ensures
            match r {
                Ok(balance) => self.increased(amount as nat) == Some(balance),
                Err(e) => self.increased(amount as nat) is None && e@ == ErrorView::ArithmeticError,
            },
    {
        match self.total.checked_add(amount) {
            Some(total) => Ok(Balance { total, locked: self.locked }),
            None => Err(ContractError::ArithmeticError {  }),
        }
    }

    /// Takes `amount` from the total. Fails if `amount` is more than what is
    /// available.
    pub fn total_decrease(self, amount: u128) -> (r: Result<Balance, ContractError>)
        ensures
            match r {
                Ok(balance) => self.decreased(amount as nat) == Some(balance),
                Err(e) => self.decreased(amount as nat) is None && e@ == ErrorView::ArithmeticError,
            },
    {
        if amount <= self.available_balance() {
            Ok(Balance { total: self.total - amount, locked: self.locked })
        } else {
            Err(ContractError::ArithmeticError {  })
        }
    }

    /// Returns the balance with `amount` moved from the available to the
    /// locked part. The balance itself is left as it is. Fails if `amount` is
    /// more than what is available.
    pub fn lock(&mut self, amount: u128) -> (r: Result<Balance, ContractError>)
        ensures
            *final(self) == *old(self),
            match r {
                Ok(balance) => old(self).with_locked(amount as nat) == Some(balance),
                Err(e) => old(self).with_locked(amount as nat) is None && e@
                    == ErrorView::ArithmeticError,
            },
    {
        if amount <= self.available_balance() {
            Ok(Balance { total: self.total, locked: self.locked + amount })
        } else {
            Err(ContractError::ArithmeticError {  })
        }
    }

    /// Returns the balance with `unlock_amount` released and
    /// `increase_amount` added to the total. The balance itself is left as it
    /// is. Fails if less than `unlock_amount` is locked or the total leaves
    /// the range of the amounts.
    pub fn unlock_and_increase(
        &mut self,
        unlock_amount: u128,
        increase_amount: u128,
    ) -> (r: Result<Balance, ContractError>)
        ensures
            *final(self) == *old(self),
            match r {
                Ok(balance) => old(self).released_with_gain(
                    unlock_amount as nat,
                    increase_amount as nat,
                ) == Some(balance),
                Err(e) => old(self).released_with_gain(unlock_amount as nat, increase_amount as nat)
                    is None && e@ == ErrorView::ArithmeticError,
            },
    {
        if unlock_amount > self.locked {
            return Err(ContractError::ArithmeticError {  });
        }
        match self.total.checked_add(increase_amount) {
            Some(total) => Ok(Balance { total, locked: self.locked - unlock_amount }),
            None => Err(ContractError::ArithmeticError {  }),
        }
    }

    /// Returns the balance with `unlock_amount` released and
    /// `decrease_amount` taken from the total. The balance itself is left as
    /// it is. Fails if less than `unlock_amount` is locked or
    /// `decrease_amount` is more than what is available after the release.
    pub fn unlock_and_decrease(
        &mut self,
        unlock_amount: u128,
        decrease_amount: u128,
    ) -> (r: Result<Balance, ContractError>)
        ensures
            *final(self) == *old(self),
            match r {
                Ok(balance) => old(self).released_with_loss(
                    unlock_amount as nat,
                    decrease_amount as nat,
                ) == Some(balance),
                Err(e) => old(self).released_with_loss(unlock_amount as nat, decrease_amount as nat)
                    is None && e@ == ErrorView::ArithmeticError,
            },
    {
        if unlock_amount > self.locked {
            return Err(ContractError::ArithmeticError {  });
        }
        let released: Balance = Balance { total: self.total, locked: self.locked - unlock_amount };
        if decrease_amount <= released.available_balance() {
            Ok(Balance { total: released.total - decrease_amount, locked: released.locked })
        } else {
            Err(ContractError::ArithmeticError {  })
        }
    }

    /// What the user may withdraw or stake.
    pub fn available_balance(self) -> (amount: u128)
        ensures
            amount == self.available(),
    {
        if self.locked <= self.total {
            self.total - self.locked
        } else {
            0
        }
    }

    /// What the user has staked in running rooms.
    pub fn locked_balance(self) -> (amount: u128)
        ensures
            amount == self.locked,
    {
        self.locked
    }
}

impl Default for Balance {
    fn default() -> (balance: Self)
        ensures
            balance == (Balance { total: 0, locked: 0 }),
    {
        Balance { total: 0, locked: 0 }
    }
}

/// A wager between two contestants.
#[derive(Debug, PartialEq, Eq)]
pub struct GameRoomsState {
    pub contestant1: String,
    pub contestant2: String,
    /// The nominal prize while the room is running, zero once it is finished.
    pub prize_pool: u128,
    pub status: GameRoomStatus,
}

/// Mathematical model of [`GameRoomsState`].
pub struct GameRoomView {
    pub contestant1: Seq<char>,
    pub contestant2: Seq<char>,
    pub prize_pool: nat,
    pub status: StatusView,
}

impl View for GameRoomsState {
    type V = GameRoomView;

    open spec fn view(&self) -> GameRoomView {
        GameRoomView {
            contestant1: self.contestant1@,
            contestant2: self.contestant2@,
            prize_pool: self.prize_pool as nat,
            status: self.status@,
        }
    }
}

impl GameRoomView {
    /// The room once it has ended with `status`: the same contestants and an
    /// empty prize pool.
    pub open spec fn finished(self, status: StatusView) -> GameRoomView {
        GameRoomView {
            contestant1: self.contestant1,
            contestant2: self.contestant2,
            prize_pool: 0,
            status,
        }
    }
}

impl Clone for GameRoomsState {
    fn clone(&self) -> (copy: Self)
        ensures
            copy@ == self@,
    {
        GameRoomsState {
            contestant1: self.contestant1.clone(),
            contestant2: self.contestant2.clone(),
            prize_pool: self.prize_pool,
            status: self.status.clone(),
        }
    }
}

impl GameRoomsState {
    /// The record of this room once it has ended with `status`.
    pub fn get_finish_state(&self, status: GameRoomStatus) -> (room: Self)
        ensures
            room@ == self@.finished(status@),
    {
        GameRoomsState {
            contestant1: self.contestant1.clone(),
            contestant2: self.contestant2.clone(),
            prize_pool: 0,
            status,
        }
    }
}

} // verus!
