//! The order book and its settlement: creating an order, filling it in whole
//! or in part at the maker's rate, and the arithmetic behind both.

use vstd::prelude::*;
use crate::errors::SwapError;
use crate::fee::{calculate_fee, fee_of, lemma_fee_below_principal};
use crate::sdk::{last_amount, read_last_amount, same_address};
use crate::slippage::{min_output, output_floor, SlippageManager};
use crate::soroswap_router::{quoted, quoted_output, RoutedSwap, SwapRequest};
use crate::types::{
    Account, Approval, Context, FeeInfo, OrderInfo, OrderStatus, Settlement, Store, Transfer,
    BALANCE_BUMP_AMOUNT, MAX_FEE_RATE,
};
use soroban_sdk::Address;

verus! {

/// What a taker receives for `amount` of an order that offers `send_amount`
/// for `recv_amount`: the maker's rate, rounded down.
pub open spec fn fill_of(amount: int, send_amount: int, recv_amount: int) -> int {
    amount * send_amount / recv_amount
}

/// Principal plus fee: what a payer must hold to put `amount` on the table.
pub open spec fn total_due(amount: u64, rate: u32) -> int {
    amount + fee_of(amount as int, rate as int)
}

/// The allowance the host must grant on the payer's behalf before the
/// transfers: none where the payer has delegated `total` already.
pub open spec fn approval_for(
    ctx: Context,
    token: Address,
    owner: Address,
    allowance: i128,
    total: int,
) -> Option<Approval> {
    if allowance < total {
        Some(
            Approval {
                token,
                owner,
                spender: ctx.contract,
                amount: total as i128,
                expiration_ledger: (ctx.ledger_sequence + BALANCE_BUMP_AMOUNT) as u32,
            },
        )
    } else {
        None
    }
}

/// Why a payer who has delegated `allowance` cannot be charged `total`, if
/// that is so: the allowance falls short and the engine may not extend it,
/// or the extension would expire past the last ledger number.
pub open spec fn approval_error(ctx: Context, allowance: i128, total: int) -> Option<SwapError> {
    if allowance >= total {
        None
    } else if !ctx.auto_approve {
        Some(SwapError::InsufficientAllowance)
    } else if ctx.ledger_sequence + BALANCE_BUMP_AMOUNT > u32::MAX {
        Some(SwapError::ArithmeticOverflow)
    } else {
        None
    }
}

impl OrderInfo {
    /// The order as it stands after a taker has filled `amount` of it.
    pub open spec fn after_fill(self, amount: u64) -> OrderInfo {
        let send_out = fill_of(amount as int, self.send_amount as int, self.recv_amount as int);
        let left = self.recv_amount - amount;
        OrderInfo {
            send_amount: (self.send_amount - send_out) as u64,
            recv_amount: left as u64,
            min_output_amount: if left != 0 && left < self.min_output_amount {
                left as u64
            } else {
                self.min_output_amount
            },
            status: if left == 0 {
                OrderStatus::COMPLETE
            } else {
                self.status
            },
            ..self
        }
    }

    /// The order takes fills: it is active and still asks for something.
    /// A well-formed active order always does.
    pub open spec fn open(self) -> bool {
        self.status == OrderStatus::ACTIVE && self.recv_amount > 0
    }

    /// `amount` is a fill that this order accepts.
    pub open spec fn admits(self, amount: u64) -> bool {
        &&& self.open()
        &&& self.min_output_amount <= amount <= self.recv_amount
    }
}

/// A fill never pays out more than the order holds; it pays out everything
/// exactly when it fills everything that is asked.
pub proof fn lemma_fill_bounds(amount: int, send_amount: int, recv_amount: int)
    requires
        0 <= amount <= recv_amount,
        0 < recv_amount,
        0 <= send_amount,
    ensures
        0 <= fill_of(amount, send_amount, recv_amount) <= send_amount,
        amount == recv_amount ==> fill_of(amount, send_amount, recv_amount) == send_amount,
        amount < recv_amount && send_amount > 0 ==> fill_of(amount, send_amount, recv_amount)
            < send_amount,
{
    let q = fill_of(amount, send_amount, recv_amount);
    assert(0 <= q && q * recv_amount <= amount * send_amount < (q + 1) * recv_amount)
        by (nonlinear_arith)
        requires
            q == amount * send_amount / recv_amount,
            0 <= amount,
            0 <= send_amount,
            0 < recv_amount,
    ;
    assert(q <= send_amount) by (nonlinear_arith)
        requires
            q * recv_amount <= amount * send_amount,
            0 <= amount <= recv_amount,
            0 < recv_amount,
            0 <= send_amount,
            0 <= q,
    ;
    if amount == recv_amount {
        assert(q >= send_amount) by (nonlinear_arith)
            requires
                recv_amount * send_amount < (q + 1) * recv_amount,
                0 < recv_amount,
        ;
    }
    if amount < recv_amount && send_amount > 0 {
        assert(q < send_amount) by (nonlinear_arith)
            requires
                q * recv_amount <= amount * send_amount,
                0 <= amount < recv_amount,
                0 < send_amount,
                0 <= q,
        ;
    }
}

/// A fill honours the maker's rate: the taker gets the quoted rate rounded
/// down, never more, and loses less than one unit to the rounding.
pub proof fn lemma_fill_keeps_rate(amount: int, send_amount: int, recv_amount: int)
    requires
        0 <= amount,
        0 <= send_amount,
        0 < recv_amount,
    ensures
        fill_of(amount, send_amount, recv_amount) * recv_amount <= amount * send_amount,
        amount * send_amount < (fill_of(amount, send_amount, recv_amount) + 1) * recv_amount,
{
    let q = fill_of(amount, send_amount, recv_amount);
    assert(q * recv_amount <= amount * send_amount < (q + 1) * recv_amount) by (nonlinear_arith)
        requires
            q == amount * send_amount / recv_amount,
            0 <= amount,
            0 <= send_amount,
            0 < recv_amount,
    ;
}

/// A fill that an open, well-formed order admits leaves it well-formed, never
/// grows either side, keeps the parties and the assets, and closes the order
/// exactly when nothing is left to ask; a closed order holds nothing more
/// in custody.
pub proof fn lemma_fill_preserves_order(order: OrderInfo, amount: u64)
    requires
        order.wf(),
        order.admits(amount),
    ensures
        order.after_fill(amount).wf(),
        order.after_fill(amount).send_amount == order.send_amount - fill_of(
            amount as int,
            order.send_amount as int,
            order.recv_amount as int,
        ),
        order.after_fill(amount).recv_amount == order.recv_amount - amount,
        order.after_fill(amount).send_amount <= order.send_amount,
        order.after_fill(amount).recv_amount <= order.recv_amount,
        order.after_fill(amount).min_output_amount <= order.min_output_amount,
        order.after_fill(amount).sender == order.sender,
        order.after_fill(amount).send_token == order.send_token,
        order.after_fill(amount).recv_token == order.recv_token,
        order.after_fill(amount).status == OrderStatus::COMPLETE <==> order.after_fill(
            amount,
        ).recv_amount == 0,
        order.after_fill(amount).status == OrderStatus::COMPLETE ==> order.after_fill(
            amount,
        ).send_amount == 0,
        order.after_fill(amount).status == OrderStatus::COMPLETE || order.after_fill(amount).status
            == OrderStatus::ACTIVE,
{
    lemma_fill_bounds(amount as int, order.send_amount as int, order.recv_amount as int);
}

/// What is left of an order after a fill is offered at a rate no worse for
/// the next taker than the rate the order had before.
pub proof fn lemma_fill_never_worsens_rate(order: OrderInfo, amount: u64)
    requires
        order.wf(),
        order.admits(amount),
    ensures
        order.after_fill(amount).send_amount * order.recv_amount >= order.send_amount
            * order.after_fill(amount).recv_amount,
{
    let s = order.send_amount as int;
    let r = order.recv_amount as int;
    let a = amount as int;
    let q = fill_of(a, s, r);
    lemma_fill_bounds(a, s, r);
    lemma_fill_keeps_rate(a, s, r);
    assert((s - q) * r >= s * (r - a)) by (nonlinear_arith)
        requires
            q * r <= a * s,
    ;
}

/// The record of a freshly created order.
pub open spec fn new_order(
    sender: Address,
    send_token: Address,
    recv_token: Address,
    send_amount: u64,
    recv_amount: u64,
    min_recv_amount: u64,
) -> OrderInfo {
    OrderInfo {
        sender,
        send_token,
        recv_token,
        send_amount,
        recv_amount,
        min_output_amount: min_recv_amount,
        status: OrderStatus::ACTIVE,
    }
}

/// Why `create_order` refuses, if it does. The checks run in this order and
/// the first that fails decides.
pub open spec fn create_order_error(
    e: Store,
    ctx: Context,
    send_token: Address,
    recv_token: Address,
    send_amount: u64,
    recv_amount: u64,
    min_recv_amount: u64,
    payer: Account,
) -> Option<SwapError> {
    if e.paused {
        Some(SwapError::ContractPaused)
    } else if e.fee is None {
        Some(SwapError::NotInitialized)
    } else if send_amount == 0 || recv_amount == 0 {
        Some(SwapError::InvalidAmount)
    } else if min_recv_amount > recv_amount {
        Some(SwapError::InvalidAmount)
    } else if send_token == recv_token {
        Some(SwapError::InvalidAmount)
    } else if e.fee->0.fee_rate > MAX_FEE_RATE {
        Some(SwapError::InvalidFeeRate)
    } else if payer.balance < total_due(send_amount, e.fee->0.fee_rate) {
        Some(SwapError::InsufficientBalance)
    } else if approval_error(ctx, payer.allowance, total_due(send_amount, e.fee->0.fee_rate))
        is Some {
        approval_error(ctx, payer.allowance, total_due(send_amount, e.fee->0.fee_rate))
    } else if e.orders@.len() >= u32::MAX {
        Some(SwapError::ArithmeticOverflow)
    } else {
        None
    }
}

/// Why `accept_order` refuses, if it does. The checks run in this order and
/// the first that fails decides.
pub open spec fn accept_order_error(
    e: Store,
    ctx: Context,
    order_id: u32,
    amount: u64,
    payer: Account,
) -> Option<SwapError> {
    if e.paused {
        Some(SwapError::ContractPaused)
    } else if order_id >= e.orders@.len() {
        Some(SwapError::OrderNotFound)
    } else if e.fee is None {
        Some(SwapError::NotInitialized)
    } else {
        let order = e.orders@[order_id as int];
        let rate = e.fee->0.fee_rate;
        if !order.open() {
            Some(SwapError::OrderNotActive)
        } else if order.recv_amount < amount {
            Some(SwapError::InvalidAmount)
        } else if amount < order.min_output_amount {
            Some(SwapError::InvalidAmount)
        } else if rate > MAX_FEE_RATE {
            Some(SwapError::InvalidFeeRate)
        } else if payer.balance < total_due(amount, rate) {
            Some(SwapError::InsufficientBalance)
        } else if approval_error(ctx, payer.allowance, total_due(amount, rate)) is Some {
            approval_error(ctx, payer.allowance, total_due(amount, rate))
        } else if amount * order.send_amount > u64::MAX {
            Some(SwapError::ArithmeticOverflow)
        } else {
            None
        }
    }
}

/// A new order and what the host must do before it is recorded.
#[derive(Clone, Debug, PartialEq, Eq)]
pub struct Created {
    /// The identifier under which the order is kept.
    pub order_id: u32,
    /// The fee the maker pays on top of the principal.
    pub fee_amount: u64,
    pub settlement: Settlement,
}

/// A fill and what the host must do before it is recorded.
#[derive(Clone, Debug, PartialEq, Eq)]
pub struct FillResult {
    /// What the taker receives out of custody.
    pub send_out: u64,
    /// The fee the taker pays on top of the amount filled.
    pub fee_amount: u64,
    pub settlement: Settlement,
}

/// What `create_order` does: it refuses exactly when `create_order_error`
/// names a reason, and then changes nothing; otherwise it appends the new
/// order, hands out the next identifier and settles principal and fee.
pub open spec fn create_order_post(
    before: Store,
    after: Store,
    ctx: Context,
    sender: Address,
    send_token: Address,
    recv_token: Address,
    send_amount: u64,
    recv_amount: u64,
    min_recv_amount: u64,
    payer: Account,
    res: Result<Created, SwapError>,
) -> bool {
    &&& after == (Store { orders: after.orders, ..before })
    &&& match create_order_error(
        before,
        ctx,
        send_token,
        recv_token,
        send_amount,
        recv_amount,
        min_recv_amount,
        payer,
    ) {
        Some(err) => res is Err && res->Err_0 == err && after.orders == before.orders,
        None => {
            let fee = before.fee->0;
            &&& res matches Ok(created)
            &&& created.order_id == before.orders@.len()
            &&& created.fee_amount == fee_of(send_amount as int, fee.fee_rate as int)
            &&& after.orders@ =~= before.orders@.push(
                new_order(
                    sender,
                    send_token,
                    recv_token,
                    send_amount,
                    recv_amount,
                    min_recv_amount,
                ),
            )
            &&& created.settlement.signer == sender
            &&& created.settlement.approval == approval_for(
                ctx,
                send_token,
                sender,
                payer.allowance,
                total_due(send_amount, fee.fee_rate),
            )
            &&& created.settlement.transfers@ =~= seq![
                (Transfer {
                    token: send_token,
                    from: sender,
                    to: ctx.contract,
                    amount: send_amount as i128,
                }),
                (Transfer {
                    token: send_token,
                    from: sender,
                    to: fee.fee_wallet,
                    amount: created.fee_amount as i128,
                }),
            ]
        },
    }
}

/// What `accept_order` does: it refuses exactly when `accept_order_error`
/// names a reason, and then changes nothing; otherwise it pays the taker
/// the maker's rate on `amount`, updates the order, and settles fee, maker
/// and taker in that order.
pub open spec fn accept_order_post(
    before: Store,
    after: Store,
    ctx: Context,
    receiver: Address,
    order_id: u32,
    amount: u64,
    payer: Account,
    res: Result<FillResult, SwapError>,
) -> bool {
    &&& after == (Store { orders: after.orders, ..before })
    &&& match accept_order_error(before, ctx, order_id, amount, payer) {
        Some(err) => res is Err && res->Err_0 == err && after.orders == before.orders,
        None => {
            let order = before.orders@[order_id as int];
            let fee = before.fee->0;
            &&& res matches Ok(fill)
            &&& fill.send_out == fill_of(
                amount as int,
                order.send_amount as int,
                order.recv_amount as int,
            )
            &&& fill.fee_amount == fee_of(amount as int, fee.fee_rate as int)
            &&& after.orders@ =~= before.orders@.update(order_id as int, order.after_fill(amount))
            &&& fill.settlement.signer == receiver
            &&& fill.settlement.approval == approval_for(
                ctx,
                order.recv_token,
                receiver,
                payer.allowance,
                total_due(amount, fee.fee_rate),
            )
            &&& fill.settlement.transfers@ =~= seq![
                (Transfer {
                    token: order.recv_token,
                    from: receiver,
                    to: fee.fee_wallet,
                    amount: fill.fee_amount as i128,
                }),
                (Transfer {
                    token: order.recv_token,
                    from: receiver,
                    to: order.sender,
                    amount: amount as i128,
                }),
                (Transfer {
                    token: order.send_token,
                    from: ctx.contract,
                    to: receiver,
                    amount: fill.send_out as i128,
                }),
            ]
        },
    }
}

/// The allowance to grant before a payer's transfers, if one is needed and
/// can be granted.
fn extend_allowance(
    ctx: &Context,
    token: &Address,
    owner: &Address,
    allowance: i128,
    total: i128,
) -> (res: Result<Option<Approval>, SwapError>)
    ensures
        approval_error(*ctx, allowance, total as int) matches Some(err) ==> res == Err::<
            Option<Approval>,
            SwapError,
        >(err),
        approval_error(*ctx, allowance, total as int) is None ==> res == Ok::<
            Option<Approval>,
            SwapError,
        >(approval_for(*ctx, *token, *owner, allowance, total as int)),
{
    if allowance >= total {
        return Ok(None);
    }
    if !ctx.auto_approve {
        return Err(SwapError::InsufficientAllowance);
    }
    match ctx.ledger_sequence.checked_add(BALANCE_BUMP_AMOUNT) {
        Some(expiration_ledger) => Ok(
            Some(
                Approval {
                    token: token.clone(),
                    owner: owner.clone(),
                    spender: ctx.contract.clone(),
                    amount: total,
                    expiration_ledger,
                },
            ),
        ),
        None => Err(SwapError::ArithmeticOverflow),
    }
}

/// Opens an order of `send_amount` of `send_token` for `recv_amount` of
/// `recv_token`, fillable in pieces of at least `min_recv_amount`. The two
/// assets must differ.
///
/// `payer` is what the asset ledger reports of `sender` for `send_token`.
/// On success the order is appended to the store under the next identifier,
/// and the settlement moves the principal into custody and the fee to the
/// fee recipient, in that order, after `sender` has authorized it. On
/// refusal the store is untouched.
pub fn create_order(
    e: &mut Store,
    ctx: &Context,
    sender: &Address,
    send_token: &Address,
    recv_token: &Address,
    send_amount: u64,
    recv_amount: u64,
    min_recv_amount: u64,
    payer: Account,
) -> (res: Result<Created, SwapError>)
    ensures
        old(e).wf() ==> final(e).wf(),
        create_order_post(
            *old(e),
            *final(e),
            *ctx,
            *sender,
            *send_token,
            *recv_token,
            send_amount,
            recv_amount,
            min_recv_amount,
            payer,
            res,
        ),
{
    if e.paused {
        return Err(SwapError::ContractPaused);
    }
    let (fee_rate, fee_wallet): (u32, Address) = match &e.fee {
        Some(fee) => (fee.fee_rate, fee.fee_wallet.clone()),
        None => {
            return Err(SwapError::NotInitialized);
        },
    };
    if send_amount == 0 || recv_amount == 0 {
        return Err(SwapError::InvalidAmount);
    }
    if min_recv_amount > recv_amount {
        return Err(SwapError::InvalidAmount);
    }
    if same_address(send_token, recv_token) {
        return Err(SwapError::InvalidAmount);
    }
    if fee_rate > MAX_FEE_RATE {
        return Err(SwapError::InvalidFeeRate);
    }
    let fee = FeeInfo { fee_rate, fee_wallet };
    proof {
        lemma_fee_below_principal(send_amount as int, fee_rate as int);
    }
    let fee_amount: u64 = calculate_fee(&fee, send_amount);
    let total: i128 = send_amount as i128 + fee_amount as i128;
    if payer.balance < total {
        return Err(SwapError::InsufficientBalance);
    }
    let approval: Option<Approval> = match extend_allowance(
        ctx,
        send_token,
        sender,
        payer.allowance,
        total,
    ) {
        Ok(approval) => approval,
        Err(err) => {
            return Err(err);
        },
    };
    if e.orders.len() >= u32::MAX as usize {
        return Err(SwapError::ArithmeticOverflow);
    }
    let order_id: u32 = e.orders.len() as u32;

    let mut transfers: Vec<Transfer> = Vec::new();
    transfers.push(
        Transfer {
            token: send_token.clone(),
            from: sender.clone(),
            to: ctx.contract.clone(),
            amount: send_amount as i128,
        },
    );
    transfers.push(
        Transfer {
            token: send_token.clone(),
            from: sender.clone(),
            to: fee.fee_wallet,
            amount: fee_amount as i128,
        },
    );
    e.orders.push(
        OrderInfo {
            sender: sender.clone(),
            send_token: send_token.clone(),
            recv_token: recv_token.clone(),
            send_amount,
            recv_amount,
            min_output_amount: min_recv_amount,
            status: OrderStatus::ACTIVE,
        },
    );
    let settlement = Settlement { signer: sender.clone(), approval, transfers };
    Ok(Created { order_id, fee_amount, settlement })
}

/// Fills `amount` of order `order_id` for `receiver` at the maker's rate.
///
/// `payer` is what the asset ledger reports of `receiver` for the order's
/// `recv_token`. On success the order is updated in place, and the
/// settlement pays the fee, then the maker, then the taker out of custody,
/// after `receiver` has authorized it. On refusal the store is untouched.
pub fn accept_order(
    e: &mut Store,
    ctx: &Context,
    receiver: &Address,
    order_id: u32,
    amount: u64,
    payer: Account,
) -> (res: Result<FillResult, SwapError>)
    ensures
        old(e).wf() ==> final(e).wf(),
        accept_order_post(*old(e), *final(e), *ctx, *receiver, order_id, amount, payer, res),
{
    if e.paused {
        return Err(SwapError::ContractPaused);
    }
    if order_id as usize >= e.orders.len() {
        return Err(SwapError::OrderNotFound);
    }
    let index: usize = order_id as usize;
    let (fee_rate, fee_wallet): (u32, Address) = match &e.fee {
        Some(fee) => (fee.fee_rate, fee.fee_wallet.clone()),
        None => {
            return Err(SwapError::NotInitialized);
        },
    };
    let order: OrderInfo = e.orders[index].clone();
    if order.status != OrderStatus::ACTIVE || order.recv_amount == 0 {
        return Err(SwapError::OrderNotActive);
    }
    if order.recv_amount < amount {
        return Err(SwapError::InvalidAmount);
    }
    if amount < order.min_output_amount {
        return Err(SwapError::InvalidAmount);
    }
    if fee_rate > MAX_FEE_RATE {
        return Err(SwapError::InvalidFeeRate);
    }
    let fee = FeeInfo { fee_rate, fee_wallet };
    proof {
        lemma_fee_below_principal(amount as int, fee_rate as int);
    }
    let fee_amount: u64 = calculate_fee(&fee, amount);
    let total: i128 = amount as i128 + fee_amount as i128;
    if payer.balance < total {
        return Err(SwapError::InsufficientBalance);
    }
    let approval: Option<Approval> = match extend_allowance(
        ctx,
        &order.recv_token,
        receiver,
        payer.allowance,
        total,
    ) {
        Ok(approval) => approval,
        Err(err) => {
            return Err(err);
        },
    };
    let send_out: u64 = match amount.checked_mul(order.send_amount) {
        Some(product) => product / order.recv_amount,
        None => {
            return Err(SwapError::ArithmeticOverflow);
        },
    };
    proof {
        lemma_fill_bounds(amount as int, order.send_amount as int, order.recv_amount as int);
        if old(e).wf() {
            lemma_fill_preserves_order(order, amount);
        }
    }

    let mut transfers: Vec<Transfer> = Vec::new();
    transfers.push(
        Transfer {
            token: order.recv_token.clone(),
            from: receiver.clone(),
            to: fee.fee_wallet,
            amount: fee_amount as i128,
        },
    );
    transfers.push(
        Transfer {
            token: order.recv_token.clone(),
            from: receiver.clone(),
            to: order.sender.clone(),
            amount: amount as i128,
        },
    );
    transfers.push(
        Transfer {
            token: order.send_token.clone(),
            from: ctx.contract.clone(),
            to: receiver.clone(),
            amount: send_out as i128,
        },
    );

    let left: u64 = order.recv_amount - amount;
    let slot = &mut e.orders[index];
    slot.send_amount = order.send_amount - send_out;
    slot.recv_amount = left;
    if left == 0 {
        slot.status = OrderStatus::COMPLETE;
    } else if left < order.min_output_amount {
        slot.min_output_amount = left;
    }
    let settlement = Settlement { signer: receiver.clone(), approval, transfers };
    Ok(FillResult { send_out, fee_amount, settlement })
}

/// An order enters the book on the maker's terms: both amounts as supplied,
/// hence at the supplied rate, open, between two different assets, and with
/// a floor no higher than what is asked.
pub proof fn lemma_created_order_keeps_terms(
    e: Store,
    ctx: Context,
    sender: Address,
    send_token: Address,
    recv_token: Address,
    send_amount: u64,
    recv_amount: u64,
    min_recv_amount: u64,
    payer: Account,
)
    requires
        create_order_error(
            e,
            ctx,
            send_token,
            recv_token,
            send_amount,
            recv_amount,
            min_recv_amount,
            payer,
        ) is None,
    ensures
        ({
            let order = new_order(
                sender,
                send_token,
                recv_token,
                send_amount,
                recv_amount,
                min_recv_amount,
            );
            &&& order.send_amount == send_amount
            &&& order.recv_amount == recv_amount
            &&& order.send_amount * recv_amount == send_amount * order.recv_amount
            &&& order.min_output_amount <= order.recv_amount
            &&& order.send_token != order.recv_token
            &&& order.status == OrderStatus::ACTIVE
            &&& order.wf()
        }),
{
}

/// After an accepted fill the order holds what it held less what was paid
/// out, and asks what it asked less what was filled.
pub proof fn lemma_accepted_fill_arithmetic(
    before: Store,
    after: Store,
    ctx: Context,
    receiver: Address,
    order_id: u32,
    amount: u64,
    payer: Account,
    res: Result<FillResult, SwapError>,
)
    requires
        accept_order_post(before, after, ctx, receiver, order_id, amount, payer, res),
        res is Ok,
    ensures
        order_id < before.orders@.len(),
        after.orders@.len() == before.orders@.len(),
        res->Ok_0.send_out == fill_of(
            amount as int,
            before.orders@[order_id as int].send_amount as int,
            before.orders@[order_id as int].recv_amount as int,
        ),
        after.orders@[order_id as int].send_amount == before.orders@[order_id as int].send_amount
            - res->Ok_0.send_out,
        after.orders@[order_id as int].recv_amount == before.orders@[order_id as int].recv_amount
            - amount,
        forall|i: int|
            0 <= i < before.orders@.len() && i != order_id ==> after.orders@[i]
                == before.orders@[i],
{
    let order = before.orders@[order_id as int];
    lemma_fill_bounds(amount as int, order.send_amount as int, order.recv_amount as int);
}

/// An order that is not open refuses every fill as not active, whoever
/// tries and with whatever amount, as long as the engine runs and a fee is
/// configured.
pub proof fn lemma_closed_order_refuses_fills(
    e: Store,
    ctx: Context,
    order_id: u32,
    amount: u64,
    payer: Account,
)
    requires
        order_id < e.orders@.len(),
        !e.orders@[order_id as int].open(),
        !e.paused,
        e.fee is Some,
    ensures
        accept_order_error(e, ctx, order_id, amount, payer) == Some(SwapError::OrderNotActive),
{
}

/// Once a fill leaves nothing to ask, the order is complete, and every
/// later attempt to fill it is refused as not active, whoever tries and
/// with whatever amount.
pub proof fn lemma_complete_is_terminal(
    before: Store,
    after: Store,
    ctx: Context,
    receiver: Address,
    order_id: u32,
    amount: u64,
    payer: Account,
    res: Result<FillResult, SwapError>,
    later_ctx: Context,
    later_amount: u64,
    later_payer: Account,
)
    requires
        accept_order_post(before, after, ctx, receiver, order_id, amount, payer, res),
        res is Ok,
        after.orders@[order_id as int].recv_amount == 0,
    ensures
        after.orders@[order_id as int].status == OrderStatus::COMPLETE,
        accept_order_error(after, later_ctx, order_id, later_amount, later_payer) == Some(
            SwapError::OrderNotActive,
        ),
{
    lemma_closed_order_refuses_fills(after, later_ctx, order_id, later_amount, later_payer);
}

/// The number of orders created so far, which is the next identifier.
pub fn order_count(e: &Store) -> (count: u32)
    requires
        e.wf(),
    ensures
        count == e.orders@.len(),
{
    e.orders.len() as u32
}

/// The last failure code on record, or 1000 while none is.
pub fn order_error(e: &Store) -> (code: u32)
    ensures
        code == match e.error_code {
            Some(recorded) => recorded,
            None => 1000,
        },
{
    match e.error_code {
        Some(recorded) => recorded,
        None => 1000,
    }
}

/// The order kept under `key`.
pub fn load_order(e: &Store, key: u32) -> (res: Result<OrderInfo, SwapError>)
    ensures
        key < e.orders@.len() ==> res == Ok::<OrderInfo, SwapError>(e.orders@[key as int]),
        key >= e.orders@.len() ==> res == Err::<OrderInfo, SwapError>(SwapError::OrderNotFound),
{
    if (key as usize) < e.orders.len() {
        Ok(e.orders[key as usize].clone())
    } else {
        Err(SwapError::OrderNotFound)
    }
}

/// What is left of a balance when it is counted in 64 bits: the balance
/// modulo 2^64.
pub open spec fn low_64_bits(balance: int) -> int {
    balance % 0x1_0000_0000_0000_0000
}

/// A balance cut to its low 64 bits.
fn cut_to_64_bits(balance: i128) -> (low: u64)
    ensures
        low == low_64_bits(balance as int),
{
    let low: u64 = #[verifier::truncate] (balance as u64);
    assert(low == (balance as int) % 0x1_0000_0000_0000_0000) by (bit_vector)
        requires
            low == balance as u64,
    ;
    low
}

/// An account's balances of an order's two assets as the order book counts
/// them, in 64 bits; higher bits of what the asset ledger reports are cut off.
pub fn order_balances(send_balance: i128, recv_balance: i128) -> (balances: (u64, u64))
    ensures
        balances.0 == low_64_bits(send_balance as int),
        balances.1 == low_64_bits(recv_balance as int),
{
    (cut_to_64_bits(send_balance), cut_to_64_bits(recv_balance))
}

/// Reads the router's answer to a quote: the amount expected out.
pub fn get_expected_amount(amounts: &soroban_sdk::Vec<i128>) -> (res: Result<i128, SwapError>)
    ensures
        res == quoted(last_amount(*amounts)),
{
    quoted_output(read_last_amount(amounts))
}

/// The tolerance of routed swaps as a number of basis points.
pub open spec fn tolerance_of(e: Store) -> int {
    match e.slippage {
        Some(set) => set as int,
        None => SlippageManager::DEFAULT_SLIPPAGE_BPS as int,
    }
}

/// Why `soro_swap_and_distribute` refuses, if it does. The checks run in
/// this order and the first that fails decides.
pub open spec fn soro_swap_error(
    e: Store,
    amount_in: i128,
    custody_balance: i128,
    quote: i128,
) -> Option<SwapError> {
    if e.paused {
        Some(SwapError::ContractPaused)
    } else if amount_in <= 0 {
        Some(SwapError::InvalidAmount)
    } else if custody_balance == 0 || amount_in > custody_balance {
        Some(SwapError::InsufficientBalance)
    } else if quote < 0 {
        Some(SwapError::SwapFailed)
    } else {
        None
    }
}

/// Plans the sale of `amount_in` of `token_in` out of custody through the
/// market maker.
///
/// `custody_balance` is the engine's own balance of `token_in`, `pair` the
/// pool that trades the two assets and `quote` what that pool currently
/// offers for `amount_in`. The swap is asked with the quote less the
/// tolerated slippage as its floor, delivered back into custody, without a
/// deadline; `customer` must authorize it. The proceeds are forwarded to
/// the merchant once the router has answered.
pub fn soro_swap_and_distribute(
    e: &Store,
    ctx: &Context,
    token_in: &Address,
    token_out: &Address,
    customer: &Address,
    amount_in: i128,
    custody_balance: i128,
    pair: &Address,
    quote: i128,
) -> (res: Result<RoutedSwap, SwapError>)
    requires
        e.wf(),
    ensures
        soro_swap_error(*e, amount_in, custody_balance, quote) matches Some(err) ==> res is Err
            && res->Err_0 == err,
        soro_swap_error(*e, amount_in, custody_balance, quote) is None ==> {
            &&& res matches Ok(swap)
            &&& swap.signers@ == seq![*customer]
            &&& swap.approval is None
            &&& swap.deposit is None
            &&& swap.delegation == (Transfer {
                token: *token_in,
                from: ctx.contract,
                to: *pair,
                amount: amount_in,
            })
            &&& swap.request == (SwapRequest {
                amount_in,
                amount_out_min: min_output(quote as int, tolerance_of(*e)) as i128,
                token_in: *token_in,
                token_out: *token_out,
                to: ctx.contract,
                deadline: u64::MAX,
            })
            &&& 0 <= swap.request.amount_out_min <= quote
        },
{
    if e.paused {
        return Err(SwapError::ContractPaused);
    }
    if amount_in <= 0 {
        return Err(SwapError::InvalidAmount);
    }
    if custody_balance == 0 || amount_in > custody_balance {
        return Err(SwapError::InsufficientBalance);
    }
    if quote < 0 {
        return Err(SwapError::SwapFailed);
    }
    let tolerance: i128 = SlippageManager::get_slippage_tolerance(e);
    let amount_out_min: i128 = output_floor(quote, tolerance as u32);
    let mut signers: Vec<Address> = Vec::new();
    signers.push(customer.clone());
    Ok(
        RoutedSwap {
            signers,
            approval: None,
            deposit: None,
            delegation: Transfer {
                token: token_in.clone(),
                from: ctx.contract.clone(),
                to: pair.clone(),
                amount: amount_in,
            },
            request: SwapRequest {
                amount_in,
                amount_out_min,
                token_in: token_in.clone(),
                token_out: token_out.clone(),
                to: ctx.contract.clone(),
                deadline: u64::MAX,
            },
        },
    )
}

} // verus!
