//! Errors reported by the ledger operations.

use vstd::prelude::*;
use vstd::string::*;

verus! {

/// Details of a rejected lock or withdrawal: what was asked for, what the
/// user had available, and who the user is.
#[derive(Debug, PartialEq, Eq)]
pub struct InsufficientBalanceErr {
    pub min_required: u128,
    pub current_balance: u128,
    pub user: String,
}

/// Mathematical model of [`InsufficientBalanceErr`].
pub struct InsufficientBalanceView {
    pub min_required: nat,
    pub current_balance: nat,
    pub user: Seq<char>,
}

impl View for InsufficientBalanceErr {
    type V = InsufficientBalanceView;

    open spec fn view(&self) -> InsufficientBalanceView {
        InsufficientBalanceView {
            min_required: self.min_required as nat,
            current_balance: self.current_balance as nat,
            user: self.user@,
        }
    }
}

/// Why a request was rejected. A rejected request changes nothing.
#[derive(Debug, PartialEq, Eq)]
pub enum ContractError {
    /// A fault in the data handed to the ledger, with a description.
    Std { msg: String },
    /// The caller is not the party the operation is reserved for.
    Unauthorized {},
    /// A user's available balance does not cover a lock or a withdrawal.
    InsufficientBalance(InsufficientBalanceErr),
    /// The room cannot be finished: it is not running, or the given result is
    /// not a final one.
    GameRoomNotStarted {},
    /// A room for this pair of contestants is still running.
    GameRoomAlreadyStarted {},
    /// The room could not be read.
    GameRoomLoadError { msg: String },
    /// The prize pool does not cover the fee of both contestants.
    InsufficientPrizePool { prize_pool: u128, fee: u128 },
    /// An amount left the range of the unsigned 128-bit integers.
    ArithmeticError {},
}

/// Mathematical model of [`ContractError`].
pub enum ErrorView {
    Std { msg: Seq<char> },
    Unauthorized,
    InsufficientBalance(InsufficientBalanceView),
    GameRoomNotStarted,
    GameRoomAlreadyStarted,
    GameRoomLoadError { msg: Seq<char> },
    InsufficientPrizePool { prize_pool: nat, fee: nat },
    ArithmeticError,
}

impl View for ContractError {
    type V = ErrorView;

    open spec fn view(&self) -> ErrorView {
        match self {
            ContractError::Std { msg } => ErrorView::Std { msg: msg@ },
            ContractError::Unauthorized {  } => ErrorView::Unauthorized,
            ContractError::InsufficientBalance(details) => ErrorView::InsufficientBalance(
                details@,
            ),
            ContractError::GameRoomNotStarted {  } => ErrorView::GameRoomNotStarted,
            ContractError::GameRoomAlreadyStarted {  } => ErrorView::GameRoomAlreadyStarted,
            ContractError::GameRoomLoadError { msg } => ErrorView::GameRoomLoadError { msg: msg@ },
            ContractError::InsufficientPrizePool { prize_pool, fee } => {
                ErrorView::InsufficientPrizePool {
                    prize_pool: *prize_pool as nat,
                    fee: *fee as nat,
                }
            },
            ContractError::ArithmeticError {  } => ErrorView::ArithmeticError,
        }
    }
}

impl ErrorView {
    /// The message that goes with an error.
    pub open spec fn message(self) -> Seq<char> {
        match self {
            ErrorView::Std { msg } => msg,
            ErrorView::Unauthorized => "Unauthorized"@,
            ErrorView::InsufficientBalance(_) => "insufficient Balance"@,
            ErrorView::GameRoomNotStarted => "Game room is not started yet"@,
            ErrorView::GameRoomAlreadyStarted => "Game room already started"@,
            ErrorView::GameRoomLoadError { .. } => "Game room load error"@,
            ErrorView::InsufficientPrizePool { .. } => "Prize pool does not cover the fees"@,
            ErrorView::ArithmeticError => "Arithmetic error"@,
        }
    }
}

impl ContractError {
    /// The message that goes with the error.
    pub fn to_string(&self) -> (text: String)
        ensures
            text@ == self@.message(),
    {
        match self {
            ContractError::Std { msg } => msg.clone(),
            ContractError::Unauthorized {  } => String::from_str("Unauthorized"),
            ContractError::InsufficientBalance(_) => String::from_str("insufficient Balance"),
            ContractError::GameRoomNotStarted {  } => String::from_str(
                "Game room is not started yet",
            ),
            ContractError::GameRoomAlreadyStarted {  } => String::from_str(
                "Game room already started",
            ),
            ContractError::GameRoomLoadError { .. } => String::from_str("Game room load error"),
            ContractError::InsufficientPrizePool { .. } => String::from_str(
                "Prize pool does not cover the fees",
            ),
            ContractError::ArithmeticError {  } => String::from_str("Arithmetic error"),
        }
    }
}

} // verus!
