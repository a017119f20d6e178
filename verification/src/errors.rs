//! The failures that the engine reports, and how they map to and from the
//! host's status values.

use vstd::prelude::*;
use crate::sdk::{contract_error, error_code, sdk_error_code, sdk_error_is_contract};
use soroban_sdk::Error;

verus! {

/// Why an operation was refused. Every refusal leaves all state untouched.
#[derive(Clone, Copy, Debug, PartialEq, Eq, Structural)]
pub enum SwapError {
    /// A record the operation depends on (admin, fee, swap configuration) was never set.
    NotInitialized,
    /// The identity behind the call does not control the account it acts for.
    NotAuthorized,
    /// An amount is zero or negative, over-fills an order or is below its
    /// floor, or an order asks for the very asset it offers.
    InvalidAmount,
    /// The configured fee rate exceeds 100%.
    InvalidFeeRate,
    /// The market maker rejected the swap or returned too little.
    SwapFailed,
    /// The asset ledger rejected a transfer.
    TransferFailed,
    /// The engine is paused.
    ContractPaused,
    /// The record was already set and may be set only once.
    AlreadyInitialized,
    /// The payer holds less than principal plus fee.
    InsufficientBalance,
    /// The payer has delegated less than principal plus fee.
    InsufficientAllowance,
    /// No order is recorded under the given identifier.
    OrderNotFound,
    /// The order is not open for fills.
    OrderNotActive,
    /// A product or a counter does not fit its integer type.
    ArithmeticOverflow,
}

impl SwapError {
    /// The number under which the host knows this failure.
    pub open spec fn code_spec(self) -> u32 {
        match self {
            SwapError::NotInitialized => 1,
            SwapError::NotAuthorized => 2,
            SwapError::InvalidAmount => 3,
            SwapError::InvalidFeeRate => 4,
            SwapError::SwapFailed => 5,
            SwapError::TransferFailed => 6,
            SwapError::ContractPaused => 7,
            SwapError::AlreadyInitialized => 8,
            SwapError::InsufficientBalance => 9,
            SwapError::InsufficientAllowance => 10,
            SwapError::OrderNotFound => 11,
            SwapError::OrderNotActive => 12,
            SwapError::ArithmeticOverflow => 13,
        }
    }

    /// The failure that an incoming status code stands for, if any. Incoming
    /// codes have a numbering of their own, which is not that of `code`.
    pub open spec fn from_code_spec(code: u32) -> Option<SwapError> {
        if code == 1 {
            Some(SwapError::NotAuthorized)
        } else if code == 2 {
            Some(SwapError::InvalidAmount)
        } else if code == 3 {
            Some(SwapError::SwapFailed)
        } else if code == 4 {
            Some(SwapError::TransferFailed)
        } else if code == 5 {
            Some(SwapError::ContractPaused)
        } else {
            None
        }
    }

    /// The number under which the host knows this failure.
    #[verifier::when_used_as_spec(code_spec)]
    pub fn code(self) -> (c: u32)
        ensures
            c == self.code_spec(),
            1 <= c <= 13,
    {
        match self {
            SwapError::NotInitialized => 1,
            SwapError::NotAuthorized => 2,
            SwapError::InvalidAmount => 3,
            SwapError::InvalidFeeRate => 4,
            SwapError::SwapFailed => 5,
            SwapError::TransferFailed => 6,
            SwapError::ContractPaused => 7,
            SwapError::AlreadyInitialized => 8,
            SwapError::InsufficientBalance => 9,
            SwapError::InsufficientAllowance => 10,
            SwapError::OrderNotFound => 11,
            SwapError::OrderNotActive => 12,
            SwapError::ArithmeticOverflow => 13,
        }
    }

    /// The host status value that reports this failure: a contract error
    /// carrying `self.code()`.
    pub fn into_sdk_error(self) -> (err: Error)
        ensures
            sdk_error_is_contract(err),
            sdk_error_code(err) == self.code_spec(),
    {
        contract_error(self.code())
    }

    /// Reads a host status value back into a failure, by its code alone.
    pub fn from_sdk_error(err: Error) -> (res: Option<SwapError>)
        ensures
            res == SwapError::from_code_spec(sdk_error_code(err)),
    {
        let code: u32 = error_code(&err);
        if code == 1 {
            Some(SwapError::NotAuthorized)
        } else if code == 2 {
            Some(SwapError::InvalidAmount)
        } else if code == 3 {
            Some(SwapError::SwapFailed)
        } else if code == 4 {
            Some(SwapError::TransferFailed)
        } else if code == 5 {
            Some(SwapError::ContractPaused)
        } else {
            None
        }
    }
}

/// Classifies failures that come from outside the engine.
pub struct ErrorUtil;

impl ErrorUtil {
    /// Any foreign failure, whatever it says, is reported as a failed swap.
    pub fn convert_error<E: core::fmt::Debug>(err: E) -> (res: SwapError)
        ensures
            res == SwapError::SwapFailed,
    {
        SwapError::SwapFailed
    }
}

} // verus!
