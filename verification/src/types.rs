//! The records the engine keeps and the values it exchanges with its host.

use vstd::prelude::*;
use crate::sdk::same_address;
use crate::slippage::{MAX_SLIPPAGE_BPS, MIN_SLIPPAGE_BPS};
use soroban_sdk::Address;

verus! {

/// Decimal digits of a fee rate: a rate counts ten-thousandths.
pub const FEE_DECIMALS: u32 = 4;

/// Denominator of a fee rate, `10^FEE_DECIMALS`.
pub const FEE_SCALE: u64 = 10_000;

/// The largest fee rate the engine computes with: 100%.
pub const MAX_FEE_RATE: u32 = 10_000;

/// The number of ledgers that close in a day.
pub const DAY_IN_LEDGERS: u32 = 17280;

/// How far the host extends the life of the engine's records: 7 days.
pub const INSTANCE_BUMP_AMOUNT: u32 = 7 * DAY_IN_LEDGERS;

/// Remaining life below which the host extends it: 6 days.
pub const INSTANCE_LIFETIME_THRESHOLD: u32 = INSTANCE_BUMP_AMOUNT - DAY_IN_LEDGERS;

/// How long an allowance granted on a payer's behalf lasts: 1 day.
pub const BALANCE_BUMP_AMOUNT: u32 = 1 * DAY_IN_LEDGERS;

/// The market maker's pool registry on the test network.
pub const SOROSWAP_FACTORY_ADDRESS: &'static str =
    "CD7OQTUYT7J4BN6EQWK6XX5SVDWFLKKFZ3PJ7GUJGLFIJSV52ZIQBWLG";

/// The market maker's router on the test network.
pub const SOROSWAP_ROUTER_ADDRESS: &'static str =
    "CCPEDSWPNWJTRIODNYO3THDJ6RYTMMAMDCGAIORRISXKGYU632Y475IF";

/// The protocol fee: a rate in ten-thousandths and the account that collects it.
#[derive(Debug, PartialEq, Eq)]
pub struct FeeInfo {
    pub fee_rate: u32,
    pub fee_wallet: Address,
}

impl Clone for FeeInfo {
    fn clone(&self) -> (copy: Self)
        ensures
            copy == *self,
    {
        FeeInfo { fee_rate: self.fee_rate, fee_wallet: self.fee_wallet.clone() }
    }
}

/// Where an order stands in its life.
#[derive(Clone, Copy, Debug, PartialEq, Eq, Structural)]
pub enum OrderStatus {
    INIT,
    ACTIVE,
    COMPLETE,
    CANCEL,
}

/// A maker's standing offer. A maker who wants to swap 1000 XLM for 20 USDC
/// sets `send_amount` to 1000 and `recv_amount` to 20; both shrink as takers
/// fill the order.
#[derive(Debug, PartialEq, Eq)]
pub struct OrderInfo {
    /// The maker, who receives `recv_token`.
    pub sender: Address,
    pub send_token: Address,
    pub recv_token: Address,
    /// What is left in custody of the maker's asset.
    pub send_amount: u64,
    /// What the maker still asks for.
    pub recv_amount: u64,
    /// The smallest fill the maker accepts.
    pub min_output_amount: u64,
    pub status: OrderStatus,
}

impl OrderInfo {
    /// An order trades two different assets. An open order has something
    /// left on both sides and a floor no higher than what is still asked; a
    /// completed one has nothing left on either side.
    pub open spec fn wf(&self) -> bool {
        &&& self.send_token != self.recv_token
        &&& self.status != OrderStatus::COMPLETE ==> self.min_output_amount <= self.recv_amount
        &&& self.status == OrderStatus::ACTIVE ==> self.send_amount > 0 && self.recv_amount > 0
        &&& self.status == OrderStatus::COMPLETE ==> self.send_amount == 0 && self.recv_amount == 0
    }

    /// Tests well-formedness.
    pub fn is_valid(&self) -> (ok: bool)
        ensures
            ok == self.wf(),
    {
        if same_address(&self.send_token, &self.recv_token) {
            return false;
        }
        match self.status {
            OrderStatus::ACTIVE => self.min_output_amount <= self.recv_amount && self.send_amount
                > 0 && self.recv_amount > 0,
            OrderStatus::COMPLETE => self.send_amount == 0 && self.recv_amount == 0,
            _ => self.min_output_amount <= self.recv_amount,
        }
    }
}

impl Clone for OrderInfo {
    fn clone(&self) -> (copy: Self)
        ensures
            copy == *self,
    {
        OrderInfo {
            sender: self.sender.clone(),
            send_token: self.send_token.clone(),
            recv_token: self.recv_token.clone(),
            send_amount: self.send_amount,
            recv_amount: self.recv_amount,
            min_output_amount: self.min_output_amount,
            status: self.status,
        }
    }
}

/// The engine's records, as the host loads them before an operation and
/// writes them back once every transfer of the operation has gone through.
#[derive(Clone, Debug, PartialEq, Eq)]
pub struct Store {
    /// The one account that may change the configuration.
    pub admin: Option<Address>,
    pub fee: Option<FeeInfo>,
    /// Every order ever created; an order's identifier is its position.
    pub orders: Vec<OrderInfo>,
    /// The slippage tolerance of routed swaps, in basis points.
    pub slippage: Option<i128>,
    pub error_code: Option<u32>,
    /// The assets admitted for trading.
    pub allowed: Vec<Address>,
    /// While set, nothing that moves assets is accepted.
    pub paused: bool,
}

impl Store {
    /// Identifiers fit 32 bits, every order is well-formed, and a configured
    /// tolerance lies within the bounds of the policy.
    pub open spec fn wf(&self) -> bool {
        &&& self.orders@.len() <= u32::MAX
        &&& forall|i: int| 0 <= i < self.orders@.len() ==> (#[trigger] self.orders@[i]).wf()
        &&& self.slippage matches Some(bps) ==> MIN_SLIPPAGE_BPS <= bps <= MAX_SLIPPAGE_BPS
    }

    /// A store with no record set and no order.
    pub fn new() -> (e: Store)
        ensures
            e.wf(),
            e.admin is None,
            e.fee is None,
            e.orders@.len() == 0,
            e.slippage is None,
            e.error_code is None,
            e.allowed@.len() == 0,
            !e.paused,
    {
        Store {
            admin: None,
            fee: None,
            orders: Vec::new(),
            slippage: None,
            error_code: None,
            allowed: Vec::new(),
            paused: false,
        }
    }

    /// Tests well-formedness, order by order.
    pub fn is_valid(&self) -> (ok: bool)
        ensures
            ok == self.wf(),
    {
        if self.orders.len() > u32::MAX as usize {
            return false;
        }
        match self.slippage {
            Some(bps) => {
                if bps < MIN_SLIPPAGE_BPS as i128 || bps > MAX_SLIPPAGE_BPS as i128 {
                    return false;
                }
            },
            None => {},
        }
        let mut i: usize = 0;
        while i < self.orders.len()
            invariant
                i <= self.orders@.len(),
                forall|j: int| 0 <= j < i ==> (#[trigger] self.orders@[j]).wf(),
            decreases self.orders@.len() - i,
        {
            if !self.orders[i].is_valid() {
                return false;
            }
            i += 1;
        }
        true
    }
}

/// Where and when an operation runs.
#[derive(Clone, Debug, PartialEq, Eq)]
pub struct Context {
    /// The engine's own account, which holds makers' assets in custody.
    pub contract: Address,
    /// The sequence number of the current ledger.
    pub ledger_sequence: u32,
    /// Whether the engine may extend a payer's allowance on the payer's
    /// behalf where it falls short.
    pub auto_approve: bool,
}

/// What the asset ledger reports of the payer of an operation: the payer's
/// balance, and how much of it the engine may move on the payer's behalf.
#[derive(Clone, Copy, Debug, PartialEq, Eq, Structural)]
pub struct Account {
    pub balance: i128,
    pub allowance: i128,
}

/// One movement of `amount` of `token`.
#[derive(Clone, Debug, PartialEq, Eq)]
pub struct Transfer {
    pub token: Address,
    pub from: Address,
    pub to: Address,
    pub amount: i128,
}

/// An allowance of `amount` of `token` that `owner` grants `spender`, valid
/// up to ledger `expiration_ledger`.
#[derive(Clone, Debug, PartialEq, Eq)]
pub struct Approval {
    pub token: Address,
    pub owner: Address,
    pub spender: Address,
    pub amount: i128,
    pub expiration_ledger: u32,
}

/// What the host must do to carry an operation out: obtain `signer`'s
/// authorization, grant `approval` if there is one, then make `transfers`
/// one by one in the order given. If any step is refused the operation
/// fails as a whole and no record is written.
#[derive(Clone, Debug, PartialEq, Eq)]
pub struct Settlement {
    pub signer: Address,
    pub approval: Option<Approval>,
    pub transfers: Vec<Transfer>,
}

} // verus!
