//! Escrowed two-party wagering ledger.
//!
//! Users hold a custodial token balance made of a free and a locked part. An
//! administrator opens game rooms, each of which locks the same stake from two
//! contestants, and later settles a room as a win or a draw. Every operation
//! is a total function on an explicit [`store::Store`]: it either commits all
//! of its changes or reports an error and leaves the store as it was.

pub mod contract;
pub mod encoding;
pub mod error;
pub mod footprint;
pub mod helpers;
pub mod msg;
pub mod response;
pub mod state;
pub mod store;
pub mod theorems;
pub mod transitions;

pub use crate::error::ContractError;
