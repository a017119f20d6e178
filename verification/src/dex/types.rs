//! The records of the swap desk.

use vstd::prelude::*;
use crate::slippage::{MAX_SLIPPAGE_BPS, MIN_SLIPPAGE_BPS};
use soroban_sdk::Address;

verus! {

/// Where the swap desk finds the market maker.
#[derive(Debug, PartialEq, Eq)]
pub struct SwapConfig {
    /// The router that executes swaps.
    pub router: Address,
    /// The registry of the market maker's pools.
    pub factory: Address,
}

/// What can go wrong with a swap's parameters.
#[derive(Clone, Copy, Debug, PartialEq, Eq, Structural)]
pub enum SwapError {
    /// The desk is not initialized.
    NotInitialized,
    /// The amount is below the minimum.
    AmountTooLow,
    /// The amount exceeds the maximum.
    AmountTooHigh,
    /// Too little of the output asset is available.
    InsufficientOutputBalance,
    /// The swap failed on slippage.
    SlippageTooHigh,
    /// The caller may not swap.
    Unauthorized,
}

impl SwapConfig {
    /// A configuration of the two addresses. Every pair is accepted.
    pub fn new(router: Address, factory: Address) -> (res: Result<SwapConfig, SwapError>)
        ensures
            res == Ok::<SwapConfig, SwapError>(SwapConfig { router, factory }),
    {
        Ok(SwapConfig { router, factory })
    }

}

impl Clone for SwapConfig {
    fn clone(&self) -> (copy: Self)
        ensures
            copy == *self,
    {
        SwapConfig { router: self.router.clone(), factory: self.factory.clone() }
    }
}

/// The swap desk's records, as the host loads them before an operation and
/// writes them back after it.
#[derive(Clone, Debug, PartialEq, Eq)]
pub struct DexStore {
    pub config: Option<SwapConfig>,
    /// Set by the one successful initialization.
    pub initialized: bool,
    pub admin: Option<Address>,
    /// The slippage tolerance in basis points.
    pub slippage: Option<u32>,
    /// While set, no swap is accepted.
    pub paused: bool,
}

impl DexStore {
    /// A configured tolerance lies within the bounds of the policy.
    pub open spec fn wf(&self) -> bool {
        self.slippage matches Some(bps) ==> MIN_SLIPPAGE_BPS <= bps <= MAX_SLIPPAGE_BPS
    }

    /// A store with no record set.
    pub fn new() -> (e: DexStore)
        ensures
            e.wf(),
            e.config is None,
            !e.initialized,
            e.admin is None,
            e.slippage is None,
            !e.paused,
    {
        DexStore { config: None, initialized: false, admin: None, slippage: None, paused: false }
    }

    /// Tests well-formedness.
    pub fn is_valid(&self) -> (ok: bool)
        ensures
            ok == self.wf(),
    {
        match self.slippage {
            Some(bps) => MIN_SLIPPAGE_BPS <= bps && bps <= MAX_SLIPPAGE_BPS,
            None => true,
        }
    }
}

} // verus!
