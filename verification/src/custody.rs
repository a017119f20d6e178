//! What the engine holds for its makers, and how settlements move it.
//!
//! The engine keeps the assets that open orders offer. The laws below show
//! that every settlement moves into or out of custody exactly what the order
//! book gains or loses, so that custody always covers the book.

use vstd::prelude::*;
use crate::errors::SwapError;
use crate::order::{
    accept_order_error, accept_order_post, create_order_error, create_order_post, fill_of,
    lemma_fill_bounds, Created, FillResult,
};
use crate::types::{Account, Context, OrderInfo, Store, Transfer};
use soroban_sdk::Address;

verus! {

/// What one order holds in custody of `token`.
pub open spec fn held_by(order: OrderInfo, token: Address) -> int {
    if order.send_token == token {
        order.send_amount as int
    } else {
        0
    }
}

/// What the orders of a book hold in custody of `token`, all together.
pub open spec fn custody_of(orders: Seq<OrderInfo>, token: Address) -> int
    decreases orders.len(),
{
    if orders.len() == 0 {
        0
    } else {
        custody_of(orders.drop_last(), token) + held_by(orders.last(), token)
    }
}

/// What one transfer adds to `account`'s balance of `token`.
pub open spec fn gain_from(transfer: Transfer, account: Address, token: Address) -> int {
    if transfer.token != token {
        0
    } else {
        (if transfer.to == account {
            transfer.amount as int
        } else {
            0
        }) - (if transfer.from == account {
            transfer.amount as int
        } else {
            0
        })
    }
}

/// What a run of transfers adds to `account`'s balance of `token`.
pub open spec fn net_gain(transfers: Seq<Transfer>, account: Address, token: Address) -> int
    decreases transfers.len(),
{
    if transfers.len() == 0 {
        0
    } else {
        net_gain(transfers.drop_last(), account, token) + gain_from(
            transfers.last(),
            account,
            token,
        )
    }
}

/// A book that grows by one order holds that order's share more.
pub proof fn lemma_custody_push(orders: Seq<OrderInfo>, order: OrderInfo, token: Address)
    ensures
        custody_of(orders.push(order), token) == custody_of(orders, token) + held_by(order, token),
{
    assert(orders.push(order).drop_last() =~= orders);
}

/// A book in which one order changes holds the difference of that order's
/// share more.
pub proof fn lemma_custody_update(orders: Seq<OrderInfo>, i: int, order: OrderInfo, token: Address)
    requires
        0 <= i < orders.len(),
    ensures
        custody_of(orders.update(i, order), token) == custody_of(orders, token) - held_by(
            orders[i],
            token,
        ) + held_by(order, token),
    decreases orders.len(),
{
    let updated = orders.update(i, order);
    if i == orders.len() - 1 {
        assert(updated.drop_last() =~= orders.drop_last());
    } else {
        assert(updated.drop_last() =~= orders.drop_last().update(i, order));
        lemma_custody_update(orders.drop_last(), i, order, token);
    }
}

/// A book never holds a negative amount.
pub proof fn lemma_custody_nonnegative(orders: Seq<OrderInfo>, token: Address)
    ensures
        0 <= custody_of(orders, token),
    decreases orders.len(),
{
    if orders.len() > 0 {
        lemma_custody_nonnegative(orders.drop_last(), token);
    }
}

/// Creating an order puts into custody exactly what the book gains: the
/// principal, in the asset offered, and nothing in any other asset. This
/// holds where the engine's own account is neither the maker nor the fee
/// recipient.
pub proof fn lemma_create_order_funds_custody(
    before: Store,
    after: Store,
    ctx: Context,
    sender: Address,
    send_token: Address,
    recv_token: Address,
    send_amount: u64,
    recv_amount: u64,
    min_recv_amount: u64,
    payer: Account,
    res: Result<Created, SwapError>,
    token: Address,
)
    requires
        create_order_post(
            before,
            after,
            ctx,
            sender,
            send_token,
            recv_token,
            send_amount,
            recv_amount,
            min_recv_amount,
            payer,
            res,
        ),
        res is Ok,
        sender != ctx.contract,
        before.fee->0.fee_wallet != ctx.contract,
    ensures
        custody_of(after.orders@, token) - custody_of(before.orders@, token) == net_gain(
            res->Ok_0.settlement.transfers@,
            ctx.contract,
            token,
        ),
        net_gain(res->Ok_0.settlement.transfers@, ctx.contract, token) == (if token == send_token {
            send_amount as int
        } else {
            0
        }),
{
    let legs = res->Ok_0.settlement.transfers@;
    assert(create_order_error(
        before,
        ctx,
        send_token,
        recv_token,
        send_amount,
        recv_amount,
        min_recv_amount,
        payer,
    ) is None);
    lemma_custody_push(before.orders@, after.orders@.last(), token);
    assert(after.orders@.drop_last() =~= before.orders@);
    assert(legs.drop_last() =~= seq![legs[0]]);
    assert(legs.drop_last().drop_last() =~= Seq::<Transfer>::empty());
    reveal_with_fuel(net_gain, 3);
}

/// Filling an order draws from custody exactly what the book loses: the
/// payout, in the asset offered, and nothing in any other asset. This
/// holds where the engine's own account is none of the taker, the maker
/// and the fee recipient.
pub proof fn lemma_accept_order_draws_custody(
    before: Store,
    after: Store,
    ctx: Context,
    receiver: Address,
    order_id: u32,
    amount: u64,
    payer: Account,
    res: Result<FillResult, SwapError>,
    token: Address,
)
    requires
        accept_order_post(before, after, ctx, receiver, order_id, amount, payer, res),
        res is Ok,
        receiver != ctx.contract,
        before.orders@[order_id as int].sender != ctx.contract,
        before.fee->0.fee_wallet != ctx.contract,
    ensures
        custody_of(after.orders@, token) - custody_of(before.orders@, token) == net_gain(
            res->Ok_0.settlement.transfers@,
            ctx.contract,
            token,
        ),
        net_gain(res->Ok_0.settlement.transfers@, ctx.contract, token) == (if token
            == before.orders@[order_id as int].send_token {
            -(res->Ok_0.send_out as int)
        } else {
            0
        }),
        0 <= custody_of(after.orders@, token) <= custody_of(before.orders@, token),
{
    let legs = res->Ok_0.settlement.transfers@;
    let order = before.orders@[order_id as int];
    assert(accept_order_error(before, ctx, order_id, amount, payer) is None);
    lemma_fill_bounds(amount as int, order.send_amount as int, order.recv_amount as int);
    lemma_custody_update(before.orders@, order_id as int, order.after_fill(amount), token);
    lemma_custody_nonnegative(after.orders@, token);
    assert(legs.drop_last() =~= seq![legs[0], legs[1]]);
    assert(legs.drop_last().drop_last() =~= seq![legs[0]]);
    assert(legs.drop_last().drop_last().drop_last() =~= Seq::<Transfer>::empty());
    reveal_with_fuel(net_gain, 4);
}

/// A fill pays each party its due: the taker gives the amount and the fee
/// and receives the payout, the maker receives the amount, and the fee
/// recipient the fee. This holds of a well-formed store where the four
/// accounts involved differ from one another.
pub proof fn lemma_fill_pays_each_party(
    before: Store,
    after: Store,
    ctx: Context,
    receiver: Address,
    order_id: u32,
    amount: u64,
    payer: Account,
    res: Result<FillResult, SwapError>,
)
    requires
        before.wf(),
        accept_order_post(before, after, ctx, receiver, order_id, amount, payer, res),
        res is Ok,
        receiver != ctx.contract,
        receiver != before.orders@[order_id as int].sender,
        receiver != before.fee->0.fee_wallet,
        before.orders@[order_id as int].sender != ctx.contract,
        before.orders@[order_id as int].sender != before.fee->0.fee_wallet,
        before.fee->0.fee_wallet != ctx.contract,
    ensures
        ({
            let order = before.orders@[order_id as int];
            let fill = res->Ok_0;
            let legs = fill.settlement.transfers@;
            &&& net_gain(legs, receiver, order.recv_token) == -(amount + fill.fee_amount)
            &&& net_gain(legs, receiver, order.send_token) == fill.send_out
            &&& net_gain(legs, order.sender, order.recv_token) == amount
            &&& net_gain(legs, order.sender, order.send_token) == 0
            &&& net_gain(legs, before.fee->0.fee_wallet, order.recv_token) == fill.fee_amount
            &&& net_gain(legs, before.fee->0.fee_wallet, order.send_token) == 0
            &&& net_gain(legs, ctx.contract, order.recv_token) == 0
            &&& net_gain(legs, ctx.contract, order.send_token) == -(fill.send_out as int)
        }),
{
    let legs = res->Ok_0.settlement.transfers@;
    assert(accept_order_error(before, ctx, order_id, amount, payer) is None);
    assert(legs.drop_last() =~= seq![legs[0], legs[1]]);
    assert(legs.drop_last().drop_last() =~= seq![legs[0]]);
    assert(legs.drop_last().drop_last().drop_last() =~= Seq::<Transfer>::empty());
    reveal_with_fuel(net_gain, 4);
}

} // verus!
