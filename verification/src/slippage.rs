//! The slippage policy: how far below its quote a routed swap may settle.

use vstd::prelude::*;
use crate::errors::SwapError;
use crate::sdk::same_address;
use crate::types::Store;
use soroban_sdk::Address;

verus! {

/// Denominator of a tolerance: one basis point is a ten-thousandth.
pub const BPS_SCALE: u32 = 10_000;

/// The smallest tolerance that may be configured: 0.01%.
pub const MIN_SLIPPAGE_BPS: u32 = 1;

/// The largest tolerance that may be configured: 50%.
pub const MAX_SLIPPAGE_BPS: u32 = 5000;

/// The least output a swap quoted at `quote` may deliver under a tolerance
/// of `bps` basis points: the quote less the tolerated share, the share
/// rounded down.
pub open spec fn min_output(quote: int, bps: int) -> int {
    quote - quote * bps / (BPS_SCALE as int)
}

/// The floor lies between the quote less its tolerated share and the quote.
pub proof fn lemma_min_output_bounds(quote: int, bps: int)
    requires
        0 <= quote,
        0 <= bps <= BPS_SCALE,
    ensures
        0 <= min_output(quote, bps) <= quote,
        min_output(quote, bps) * BPS_SCALE >= quote * (BPS_SCALE - bps),
        bps == 0 ==> min_output(quote, bps) == quote,
{
    let share = quote * bps / 10_000;
    assert(0 <= share && share * 10_000 <= quote * bps && quote * bps <= quote * 10_000)
        by (nonlinear_arith)
        requires
            share == quote * bps / 10_000,
            0 <= quote,
            0 <= bps <= 10_000,
    ;
    assert((quote - share) * 10_000 >= quote * (10_000 - bps)) by (nonlinear_arith)
        requires
            share * 10_000 <= quote * bps,
    ;
    if bps == 0 {
        assert(quote * bps == 0) by (nonlinear_arith)
            requires
                bps == 0,
        ;
    }
}

/// The floor under a quote. The share is computed on the quotient and the
/// remainder of the quote by the scale, so that no product leaves `i128`.
pub fn output_floor(quote: i128, bps: u32) -> (floor: i128)
    requires
        0 <= quote,
        bps <= BPS_SCALE,
    ensures
        floor == min_output(quote as int, bps as int),
        0 <= floor <= quote,
{
    let whole: i128 = quote / 10_000;
    let rest: i128 = quote % 10_000;
    proof {
        let q = quote as int;
        let b = bps as int;
        assert(0 <= whole * b <= q && 0 <= rest * b <= 99_990_000 && q * b == (whole * b) * 10_000
            + rest * b) by (nonlinear_arith)
            requires
                q == whole * 10_000 + rest,
                0 <= rest < 10_000,
                0 <= whole,
                0 <= b <= 10_000,
        ;
        assert(q * b / 10_000 == whole * b + rest * b / 10_000) by (nonlinear_arith)
            requires
                q * b == (whole * b) * 10_000 + rest * b,
                0 <= rest * b,
        ;
        lemma_min_output_bounds(q, b);
    }
    let share: i128 = whole * (bps as i128) + rest * (bps as i128) / 10_000;
    quote - share
}

/// The tolerance of routed swaps on the order engine's side.
pub struct SlippageManager;

impl SlippageManager {
    /// The tolerance in force while none is configured: 5 basis points.
    pub const DEFAULT_SLIPPAGE_BPS: i128 = 5;

    /// A tolerance that may be configured.
    pub open spec fn in_bounds(slippage_basis_points: i128) -> bool {
        MIN_SLIPPAGE_BPS <= slippage_basis_points <= MAX_SLIPPAGE_BPS
    }

    /// Why `set_slippage_tolerance` refuses, if it does.
    pub open spec fn set_error(e: Store, sender: Address, slippage_basis_points: i128) -> Option<
        SwapError,
    > {
        if e.admin is None {
            Some(SwapError::NotInitialized)
        } else if e.admin->0 != sender {
            Some(SwapError::NotAuthorized)
        } else if !Self::in_bounds(slippage_basis_points) {
            Some(SwapError::InvalidAmount)
        } else {
            None
        }
    }

    /// Configures the tolerance on behalf of `sender`, who must be the
    /// administrator and whose authorization the host must obtain before it
    /// writes the store back.
    pub fn set_slippage_tolerance(
        e: &mut Store,
        sender: &Address,
        slippage_basis_points: i128,
    ) -> (res: Result<(), SwapError>)
        ensures
            Self::set_error(*old(e), *sender, slippage_basis_points) matches Some(err) ==> res
                == Err::<(), SwapError>(err) && *final(e) == *old(e),
            Self::set_error(*old(e), *sender, slippage_basis_points) is None ==> res is Ok
                && *final(e) == (Store { slippage: Some(slippage_basis_points), ..*old(e) }),
            old(e).wf() ==> final(e).wf(),
    {
        match &e.admin {
            None => {
                return Err(SwapError::NotInitialized);
            },
            Some(admin) => {
                if !same_address(admin, sender) {
                    return Err(SwapError::NotAuthorized);
                }
            },
        }
        if slippage_basis_points < MIN_SLIPPAGE_BPS as i128 || slippage_basis_points
            > MAX_SLIPPAGE_BPS as i128 {
            return Err(SwapError::InvalidAmount);
        }
        e.slippage = Some(slippage_basis_points);
        Ok(())
    }

    /// The configured tolerance, or the default while none is configured.
    pub fn get_slippage_tolerance(e: &Store) -> (bps: i128)
        ensures
            bps == match e.slippage {
                Some(set) => set,
                None => Self::DEFAULT_SLIPPAGE_BPS,
            },
    {
        match e.slippage {
            Some(set) => set,
            None => Self::DEFAULT_SLIPPAGE_BPS,
        }
    }
}

} // verus!
