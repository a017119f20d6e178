//! A maker/taker order engine with protocol fees and a slippage-bounded
//! market-maker fallback, written for a Soroban host.
//!
//! The engine decides; the host acts. Every operation takes the records it
//! needs and what the host observed of the asset ledger, and returns the new
//! records together with the transfers the host must carry out, in order.

use vstd::prelude::*;
use crate::admin::{has_admin, read_admin, set_paused, write_admin};
use crate::errors::SwapError;
use crate::fee::{fee_get, fee_set};
use crate::order::{accept_order_post, create_order_post, Created, FillResult};
use crate::sdk::last_amount;
use crate::soroswap_router::quoted;
use crate::types::{Account, Approval, Context, FeeInfo, Store, BALANCE_BUMP_AMOUNT};
use soroban_sdk::Address;

pub mod admin;
pub mod allow;
pub mod custody;
pub mod dex;
pub mod errors;
pub mod fee;
pub mod order;
pub mod sdk;
pub mod slippage;
pub mod soroswap_router;
pub mod types;

verus! {

/// The order engine's entry points, one per call that the host exposes.
pub struct MuggleSwap;

impl MuggleSwap {
    /// Names the first administrator. This works once.
    pub fn initialization(e: &mut Store, admin: Address) -> (res: Result<(), SwapError>)
        ensures
            old(e).admin is Some ==> res == Err::<(), SwapError>(SwapError::AlreadyInitialized)
                && *final(e) == *old(e),
            old(e).admin is None ==> res is Ok && *final(e) == (Store {
                admin: Some(admin),
                ..*old(e)
            }),
    {
        if has_admin(e) {
            return Err(SwapError::AlreadyInitialized);
        }
        write_admin(e, &admin);
        Ok(())
    }

    /// Hands the administration over to `new_admin`. Returns the outgoing
    /// administrator, whose authorization the host must obtain before it
    /// writes the store back.
    pub fn set_admin(e: &mut Store, new_admin: Address) -> (res: Result<Address, SwapError>)
        ensures
            old(e).admin matches Some(admin) ==> res == Ok::<Address, SwapError>(admin) && *final(e)
                == (Store { admin: Some(new_admin), ..*old(e) }),
            old(e).admin is None ==> res == Err::<Address, SwapError>(SwapError::NotInitialized)
                && *final(e) == *old(e),
    {
        let admin: Address = match read_admin(e) {
            Ok(admin) => admin,
            Err(err) => {
                return Err(err);
            },
        };
        write_admin(e, &new_admin);
        Ok(admin)
    }

    /// Sets rate and recipient of the fee as one record. Returns the
    /// administrator, whose authorization the host must obtain.
    pub fn set_fee(e: &mut Store, fee_rate: u32, fee_wallet: Address) -> (res: Result<
        Address,
        SwapError,
    >)
        ensures
            old(e).admin matches Some(admin) ==> res == Ok::<Address, SwapError>(admin) && *final(e)
                == (Store { fee: Some(FeeInfo { fee_rate, fee_wallet }), ..*old(e) }),
            old(e).admin is None ==> res == Err::<Address, SwapError>(SwapError::NotInitialized)
                && *final(e) == *old(e),
    {
        let fee_info = FeeInfo { fee_rate, fee_wallet };
        fee_set(e, &fee_info)
    }

    /// Stops the engine from accepting anything that moves assets. Returns
    /// the administrator, whose authorization the host must obtain.
    pub fn pause(e: &mut Store) -> (res: Result<Address, SwapError>)
        ensures
            old(e).admin matches Some(admin) ==> res == Ok::<Address, SwapError>(admin) && *final(e)
                == (Store { paused: true, ..*old(e) }),
            old(e).admin is None ==> res == Err::<Address, SwapError>(SwapError::NotInitialized)
                && *final(e) == *old(e),
    {
        set_paused(e, true)
    }

    /// Lets a paused engine run again. Returns the administrator, whose
    /// authorization the host must obtain.
    pub fn unpause(e: &mut Store) -> (res: Result<Address, SwapError>)
        ensures
            old(e).admin matches Some(admin) ==> res == Ok::<Address, SwapError>(admin) && *final(e)
                == (Store { paused: false, ..*old(e) }),
            old(e).admin is None ==> res == Err::<Address, SwapError>(SwapError::NotInitialized)
                && *final(e) == *old(e),
    {
        set_paused(e, false)
    }

    /// Rate and recipient of the fee.
    pub fn get_fee(e: &Store) -> (res: Result<(u32, Address), SwapError>)
        ensures
            e.fee matches Some(fee) ==> res == Ok::<(u32, Address), SwapError>(
                (fee.fee_rate, fee.fee_wallet),
            ),
            e.fee is None ==> res == Err::<(u32, Address), SwapError>(SwapError::NotInitialized),
    {
        match fee_get(e) {
            Ok(fee_info) => Ok((fee_info.fee_rate, fee_info.fee_wallet)),
            Err(err) => Err(err),
        }
    }

    /// Opens an order on behalf of `sender`; see [`order::create_order`].
    pub fn create_order(
        e: &mut Store,
        ctx: &Context,
        sender: Address,
        send_token: Address,
        recv_token: Address,
        send_amount: u64,
        recv_amount: u64,
        min_recv_amount: u64,
        payer: Account,
    ) -> (res: Result<Created, SwapError>)
        ensures
            old(e).wf() ==> final(e).wf(),
            create_order_post(
                *old(e),
                *final(e),
                *ctx,
                sender,
                send_token,
                recv_token,
                send_amount,
                recv_amount,
                min_recv_amount,
                payer,
                res,
            ),
    {
        crate::order::create_order(
            e,
            ctx,
            &sender,
            &send_token,
            &recv_token,
            send_amount,
            recv_amount,
            min_recv_amount,
            payer,
        )
    }

    /// Reads the router's answer to a quote; see [`order::get_expected_amount`].
    pub fn get_expected_amount(amounts: &soroban_sdk::Vec<i128>) -> (res: Result<i128, SwapError>)
        ensures
            res == quoted(last_amount(*amounts)),
    {
        crate::order::get_expected_amount(amounts)
    }

    /// Fills an order on behalf of `receiver`; see [`order::accept_order`].
    pub fn accept_order(
        e: &mut Store,
        ctx: &Context,
        receiver: Address,
        order_id: u32,
        amount: u64,
        payer: Account,
    ) -> (res: Result<FillResult, SwapError>)
        ensures
            old(e).wf() ==> final(e).wf(),
            accept_order_post(*old(e), *final(e), *ctx, receiver, order_id, amount, payer, res),
    {
        crate::order::accept_order(e, ctx, &receiver, order_id, amount, payer)
    }

    /// The balance on record after `amount` is credited to it; an account
    /// without a record starts at zero.
    pub fn mint(balance: Option<i128>, amount: i128) -> (res: Result<i128, SwapError>)
        ensures
            ({
                let held: int = match balance {
                    Some(held) => held as int,
                    None => 0,
                };
                if i128::MIN <= held + amount <= i128::MAX {
                    res == Ok::<i128, SwapError>((held + amount) as i128)
                } else {
                    res == Err::<i128, SwapError>(SwapError::ArithmeticOverflow)
                }
            }),
    {
        let held: i128 = match balance {
            Some(held) => held,
            None => 0,
        };
        match held.checked_add(amount) {
            Some(credited) => Ok(credited),
            None => Err(SwapError::ArithmeticOverflow),
        }
    }

    /// The allowance of `amount` of `token` that `from` grants `spender` for
    /// one day of ledgers from now. `from` must authorize it.
    pub fn approve(
        ctx: &Context,
        token: Address,
        from: Address,
        spender: Address,
        amount: i128,
    ) -> (res: Result<Approval, SwapError>)
        ensures
            ctx.ledger_sequence + BALANCE_BUMP_AMOUNT <= u32::MAX ==> res == Ok::<
                Approval,
                SwapError,
            >(
                Approval {
                    token,
                    owner: from,
                    spender,
                    amount,
                    expiration_ledger: (ctx.ledger_sequence + BALANCE_BUMP_AMOUNT) as u32,
                },
            ),
            ctx.ledger_sequence + BALANCE_BUMP_AMOUNT > u32::MAX ==> res == Err::<
                Approval,
                SwapError,
            >(SwapError::ArithmeticOverflow),
    {
        match ctx.ledger_sequence.checked_add(BALANCE_BUMP_AMOUNT) {
            Some(expiration_ledger) => Ok(
                Approval { token, owner: from, spender, amount, expiration_ledger },
            ),
            None => Err(SwapError::ArithmeticOverflow),
        }
    }

    /// The version of the engine's interface.
    pub fn version() -> (v: u32)
        ensures
            v == 2,
    {
        2
    }

    /// Who must authorize a replacement of the engine's code: the administrator.
    pub fn upgrade(e: &Store) -> (res: Result<Address, SwapError>)
        ensures
            e.admin matches Some(admin) ==> res == Ok::<Address, SwapError>(admin),
            e.admin is None ==> res == Err::<Address, SwapError>(SwapError::NotInitialized),
    {
        read_admin(e)
    }
}

} // verus!
