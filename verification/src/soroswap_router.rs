//! The adapter to the market maker's router: what to ask of it, and how to
//! read what it answers. The host makes the calls.

use vstd::prelude::*;
use crate::errors::SwapError;
use crate::sdk::{empty_path, last_amount, path_items, push_hop, read_last_amount};
use crate::slippage::{lemma_min_output_bounds, min_output, BPS_SCALE};
use crate::types::{Approval, Transfer};
use soroban_sdk::{Address, Env};

verus! {

/// An exact-input swap to ask of the router: sell `amount_in` of `token_in`
/// for at least `amount_out_min` of `token_out`, delivered to `to`, no later
/// than `deadline`.
#[derive(Clone, Debug, PartialEq, Eq)]
pub struct SwapRequest {
    pub amount_in: i128,
    pub amount_out_min: i128,
    pub token_in: Address,
    pub token_out: Address,
    pub to: Address,
    pub deadline: u64,
}

/// A swap through the market maker, ready for the host to run. The host
/// obtains the authorization of every signer, grants `approval` and makes
/// the `deposit` where there is one, lets the pool draw `delegation` once
/// and for exactly that amount, and then puts `request` to the router.
#[derive(Clone, Debug, PartialEq, Eq)]
pub struct RoutedSwap {
    pub signers: Vec<Address>,
    pub approval: Option<Approval>,
    pub deposit: Option<Transfer>,
    pub delegation: Transfer,
    pub request: SwapRequest,
}

/// The proceeds of a routed swap and the transfer that forwards them.
#[derive(Clone, Debug, PartialEq, Eq)]
pub struct Payout {
    pub amount_out: i128,
    pub transfer: Transfer,
}

/// The route from `token_in` straight to `token_out`.
pub fn get_swap_path(env: &Env, token_in: &Address, token_out: &Address) -> (path: soroban_sdk::Vec<
    Address,
>)
    ensures
        path_items(path) == seq![*token_in, *token_out],
{
    let mut path: soroban_sdk::Vec<Address> = empty_path(env);
    push_hop(&mut path, token_in.clone());
    push_hop(&mut path, token_out.clone());
    assert(path_items(path) =~= seq![*token_in, *token_out]);
    path
}

/// How a quote is read: the router's last amount is the expected output. An
/// answer without one, or with a negative one, counts as a failed swap.
pub open spec fn quoted(last: Option<i128>) -> Result<i128, SwapError> {
    match last {
        Some(amount) if amount >= 0 => Ok(amount),
        _ => Err(SwapError::SwapFailed),
    }
}

/// How a swap's answer is read: the router's last amount is the realized
/// output. An answer without one, or with less than the floor that was
/// asked for, counts as a failed swap.
pub open spec fn settled(last: Option<i128>, amount_out_min: i128) -> Result<i128, SwapError> {
    match last {
        Some(amount) if amount >= amount_out_min => Ok(amount),
        _ => Err(SwapError::SwapFailed),
    }
}

/// Reads a quote from the last amount of the router's answer.
pub fn quoted_output(last: Option<i128>) -> (res: Result<i128, SwapError>)
    ensures
        res == quoted(last),
{
    match last {
        Some(amount) => if amount >= 0 {
            Ok(amount)
        } else {
            Err(SwapError::SwapFailed)
        },
        None => Err(SwapError::SwapFailed),
    }
}

/// Reads a swap's outcome from the last amount of the router's answer.
pub fn realized_output(last: Option<i128>, amount_out_min: i128) -> (res: Result<i128, SwapError>)
    ensures
        res == settled(last, amount_out_min),
{
    match last {
        Some(amount) => if amount >= amount_out_min {
            Ok(amount)
        } else {
            Err(SwapError::SwapFailed)
        },
        None => Err(SwapError::SwapFailed),
    }
}

/// Reads the router's answer to an exact-input swap that asked for at least
/// `amount_out_min`.
pub fn swap_exact_tokens_for_tokens(swapped: &soroban_sdk::Vec<i128>, amount_out_min: i128) -> (res:
    Result<i128, SwapError>)
    ensures
        res == settled(last_amount(*swapped), amount_out_min),
{
    realized_output(read_last_amount(swapped), amount_out_min)
}

/// Whatever a routed swap pays out is at least the quote less the tolerated
/// share; anything less is reported as a failed swap.
pub proof fn lemma_slippage_bound(quote: i128, bps: u32, last: Option<i128>)
    requires
        0 <= quote,
        bps <= BPS_SCALE,
    ensures
        match settled(last, min_output(quote as int, bps as int) as i128) {
            Ok(amount_out) => last == Some(amount_out) && amount_out * BPS_SCALE >= quote * (
            BPS_SCALE - bps),
            Err(err) => err == SwapError::SwapFailed,
        },
{
    lemma_min_output_bounds(quote as int, bps as int);
    let floor = min_output(quote as int, bps as int);
    if let Some(amount) = last {
        if amount >= floor {
            assert(amount * 10_000 >= floor * 10_000) by (nonlinear_arith)
                requires
                    amount >= floor,
            ;
        }
    }
}

/// The payout of a routed swap whose answer ended in `last`: the realized
/// output, forwarded in `request.token_out` from where the router delivered
/// it to `recipient`.
pub open spec fn payout_of(request: SwapRequest, recipient: Address, last: Option<i128>) -> Result<
    Payout,
    SwapError,
> {
    match settled(last, request.amount_out_min) {
        Ok(amount_out) => Ok(
            Payout {
                amount_out,
                transfer: Transfer {
                    token: request.token_out,
                    from: request.to,
                    to: recipient,
                    amount: amount_out,
                },
            },
        ),
        Err(err) => Err(err),
    }
}

/// Settles a routed swap whose answer ended in `last`.
pub fn pay_out(request: &SwapRequest, recipient: &Address, last: Option<i128>) -> (res: Result<
    Payout,
    SwapError,
>)
    ensures
        res == payout_of(*request, *recipient, last),
{
    match realized_output(last, request.amount_out_min) {
        Ok(amount_out) => Ok(
            Payout {
                amount_out,
                transfer: Transfer {
                    token: request.token_out.clone(),
                    from: request.to.clone(),
                    to: recipient.clone(),
                    amount: amount_out,
                },
            },
        ),
        Err(err) => Err(err),
    }
}

/// Settles a routed swap from the router's answer.
pub fn forward_swapped(
    request: &SwapRequest,
    recipient: &Address,
    swapped: &soroban_sdk::Vec<i128>,
) -> (res: Result<Payout, SwapError>)
    ensures
        res == payout_of(*request, *recipient, last_amount(*swapped)),
{
    pay_out(request, recipient, read_last_amount(swapped))
}

/// A routed swap that was asked with the quote less the tolerated share as
/// its floor forwards at least that much to the recipient, and whatever it
/// forwards is what the router delivered; a swap that delivered less is
/// refused as failed and forwards nothing.
pub proof fn lemma_payout_honours_tolerance(
    request: SwapRequest,
    recipient: Address,
    quote: i128,
    bps: u32,
    last: Option<i128>,
)
    requires
        0 <= quote,
        bps <= BPS_SCALE,
        request.amount_out_min == min_output(quote as int, bps as int),
    ensures
        match payout_of(request, recipient, last) {
            Ok(payout) => {
                &&& last == Some(payout.amount_out)
                &&& payout.amount_out * BPS_SCALE >= quote * (BPS_SCALE - bps)
                &&& payout.transfer.amount == payout.amount_out
                &&& payout.transfer.to == recipient
                &&& payout.transfer.token == request.token_out
            },
            Err(err) => err == SwapError::SwapFailed,
        },
{
    lemma_slippage_bound(quote, bps, last);
}

} // verus!
