//! The fee ledger: one record of rate and recipient, and the fee arithmetic.

use vstd::prelude::*;
use crate::admin::read_admin;
use crate::errors::SwapError;
use crate::types::{FeeInfo, Store, FEE_SCALE, MAX_FEE_RATE};
use soroban_sdk::Address;

verus! {

/// The fee on a leg of `amount` at `rate` ten-thousandths, rounded down.
pub open spec fn fee_of(amount: int, rate: int) -> int {
    amount * rate / (FEE_SCALE as int)
}

/// A fee never exceeds the leg it is charged on, and at a rate below 100%
/// it is strictly smaller than any leg that moves something.
pub proof fn lemma_fee_below_principal(amount: int, rate: int)
    requires
        0 <= amount,
        0 <= rate <= MAX_FEE_RATE,
    ensures
        0 <= fee_of(amount, rate) <= amount,
        rate < MAX_FEE_RATE && amount > 0 ==> fee_of(amount, rate) < amount,
{
    assert(0 <= amount * rate <= amount * 10_000) by (nonlinear_arith)
        requires
            0 <= amount,
            0 <= rate <= 10_000,
    ;
    if rate < MAX_FEE_RATE && amount > 0 {
        assert(amount * rate <= amount * 10_000 - amount) by (nonlinear_arith)
            requires
                0 < amount,
                0 <= rate <= 9_999,
        ;
    }
}

/// A larger leg never pays a smaller fee.
pub proof fn lemma_fee_monotonic(a: int, b: int, rate: int)
    requires
        0 <= a <= b,
        0 <= rate,
    ensures
        fee_of(a, rate) <= fee_of(b, rate),
{
    assert(a * rate <= b * rate) by (nonlinear_arith)
        requires
            0 <= a <= b,
            0 <= rate,
    ;
}

/// Whether a fee record is set.
pub fn fee_check(e: &Store) -> (set: bool)
    ensures
        set == e.fee is Some,
{
    e.fee.is_some()
}

/// The current fee record, or `NotInitialized` if none was ever set.
pub fn fee_get(e: &Store) -> (res: Result<FeeInfo, SwapError>)
    ensures
        e.fee matches Some(fee) ==> res == Ok::<FeeInfo, SwapError>(fee),
        e.fee is None ==> res == Err::<FeeInfo, SwapError>(SwapError::NotInitialized),
{
    match &e.fee {
        Some(fee) => Ok(fee.clone()),
        None => Err(SwapError::NotInitialized),
    }
}

/// Replaces the fee record as a whole. Returns the administrator, whose
/// authorization the host must obtain before it writes the store back.
/// Without an administrator nothing changes.
pub fn fee_set(e: &mut Store, fee_info: &FeeInfo) -> (res: Result<Address, SwapError>)
    ensures
        old(e).admin matches Some(admin) ==> res == Ok::<Address, SwapError>(admin) && *final(e)
            == (Store { fee: Some(*fee_info), ..*old(e) }),
        old(e).admin is None ==> res == Err::<Address, SwapError>(SwapError::NotInitialized)
            && *final(e) == *old(e),
{
    let admin: Address = match read_admin(e) {
        Ok(admin) => admin,
        Err(err) => {
            return Err(err);
        },
    };
    e.fee = Some(fee_info.clone());
    Ok(admin)
}

/// The fee on a leg of `amount`, at whatever rate, as long as the fee fits
/// 64 bits. At a rate of at most 100%, which is what the engine admits
/// before it charges anything, it always does, and never exceeds the leg.
pub fn calculate_fee(fee_info: &FeeInfo, amount: u64) -> (fee: u64)
    requires
        fee_of(amount as int, fee_info.fee_rate as int) <= u64::MAX,
    ensures
        fee == fee_of(amount as int, fee_info.fee_rate as int),
        fee_info.fee_rate <= MAX_FEE_RATE ==> fee <= amount,
        fee_info.fee_rate < MAX_FEE_RATE && amount > 0 ==> fee < amount,
{
    proof {
        if fee_info.fee_rate <= MAX_FEE_RATE {
            lemma_fee_below_principal(amount as int, fee_info.fee_rate as int);
        }
        assert(0 <= amount * fee_info.fee_rate <= u128::MAX) by (nonlinear_arith)
            requires
                0 <= amount <= u64::MAX,
                0 <= fee_info.fee_rate <= u32::MAX,
        ;
    }
    let product: u128 = (amount as u128) * (fee_info.fee_rate as u128);
    (product / (FEE_SCALE as u128)) as u64
}

} // verus!
