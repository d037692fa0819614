//! Errors and events of the contract module.

use crate::contract_info::{AccountId, Balance, CodeHash};
use vstd::prelude::*;

verus! {

/// Why an operation of the contract module failed.
#[derive(Clone, Copy, Debug, PartialEq, Eq, Structural)]
pub enum ContractError {
    OutOfGas,
    MaxCallDepthReached,
    ValueTooLarge,
    BalanceTooLow,
    BelowExistentialDeposit,
    Payment,
    ExhaustsResources,
    ContractNotFound,
    ContractIsTombstone,
    DestinationNotTombstone,
    DuplicateContract,
    TombstoneMismatch,
    InvalidOriginForSurcharge,
    RestoreDonorWrittenThisBlock,
    ScheduleStaleOrEqual,
    BadOrigin,
}

/// Who sent a dispatchable call.
#[derive(Clone, Debug, PartialEq, Eq)]
pub enum Origin {
    Root,
    Signed(AccountId),
    Unsigned,
}

/// What the module reports to the outer chain.
#[derive(Clone, Debug, PartialEq, Eq)]
pub enum Event {
    Transfer(AccountId, AccountId, Balance),
    Instantiated(AccountId, AccountId),
    CodeStored(CodeHash),
    ScheduleUpdated(u32),
    Dispatched(AccountId, bool),
    Contract(AccountId, Vec<u8>),
}

} // verus!
