//! The swap desk's slippage policy.

use vstd::prelude::*;
use crate::dex::admin::read_admin;
use crate::dex::types::DexStore;
use crate::errors::SwapError;
use crate::slippage::{min_output, output_floor, MAX_SLIPPAGE_BPS, MIN_SLIPPAGE_BPS};
use soroban_sdk::Address;

verus! {

/// The tolerance in force while none is configured: 0.5%.
pub const DEFAULT_SLIPPAGE_BPS: u32 = 50;

/// The tolerance in force.
pub open spec fn slippage_of(e: DexStore) -> u32 {
    match e.slippage {
        Some(bps) => bps,
        None => DEFAULT_SLIPPAGE_BPS,
    }
}

/// Whether a tolerance is configured.
pub fn has_slippage(e: &DexStore) -> (set: bool)
    ensures
        set == e.slippage is Some,
{
    e.slippage.is_some()
}

/// The configured tolerance, or the default while none is configured.
pub fn get_slippage(e: &DexStore) -> (bps: u32)
    ensures
        bps == slippage_of(*e),
{
    match e.slippage {
        Some(bps) => bps,
        None => DEFAULT_SLIPPAGE_BPS,
    }
}

/// Why `set_slippage` refuses, if it does.
pub open spec fn set_slippage_error(e: DexStore, bps: u32) -> Option<SwapError> {
    if e.admin is None {
        Some(SwapError::NotInitialized)
    } else if bps < MIN_SLIPPAGE_BPS || bps > MAX_SLIPPAGE_BPS {
        Some(SwapError::InvalidAmount)
    } else {
        None
    }
}

/// Configures the tolerance. Returns the administrator, whose authorization
/// the host must obtain before it writes the store back. A value outside
/// the policy's bounds is refused and nothing changes.
pub fn set_slippage(e: &mut DexStore, bps: u32) -> (res: Result<Address, SwapError>)
    ensures
        set_slippage_error(*old(e), bps) matches Some(err) ==> res == Err::<Address, SwapError>(err)
            && *final(e) == *old(e),
        set_slippage_error(*old(e), bps) is None ==> res == Ok::<Address, SwapError>(
            old(e).admin->0,
        ) && *final(e) == (DexStore { slippage: Some(bps), ..*old(e) }),
        old(e).wf() ==> final(e).wf(),
{
    let admin: Address = match read_admin(e) {
        Ok(admin) => admin,
        Err(err) => {
            return Err(err);
        },
    };
    if bps < MIN_SLIPPAGE_BPS || bps > MAX_SLIPPAGE_BPS {
        return Err(SwapError::InvalidAmount);
    }
    e.slippage = Some(bps);
    Ok(admin)
}

/// The least output the desk accepts for a swap quoted at `amount`: the
/// quote less the tolerated share. A quote is never negative.
pub fn calculate_min_amount(e: &DexStore, amount: i128) -> (floor: i128)
    requires
        e.wf(),
        0 <= amount,
    ensures
        floor == min_output(amount as int, slippage_of(*e) as int),
        0 <= floor <= amount,
{
    let bps: u32 = get_slippage(e);
    output_floor(amount, bps)
}

} // verus!
