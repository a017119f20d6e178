//! What the swap desk announces.

use vstd::prelude::*;
use soroban_sdk::Address;

verus! {

/// An announcement for the host to publish.
#[derive(Clone, Debug, PartialEq, Eq)]
pub enum Event {
    /// A swap went through: `customer` paid `amount_in`, `merchant` received
    /// `amount_out`.
    SwapCompleted { customer: Address, merchant: Address, amount_in: i128, amount_out: i128 },
    /// The desk was initialized with `router`.
    ContractInitialized { router: Address },
}

/// Builds the desk's announcements.
pub struct Events;

impl Events {
    pub fn swap_completed(
        customer: &Address,
        merchant: &Address,
        amount_in: i128,
        amount_out: i128,
    ) -> (event: Event)
        ensures
            event == (Event::SwapCompleted {
                customer: *customer,
                merchant: *merchant,
                amount_in,
                amount_out,
            }),
    {
        Event::SwapCompleted {
            customer: customer.clone(),
            merchant: merchant.clone(),
            amount_in,
            amount_out,
        }
    }

    pub fn contract_initialized(router: &Address) -> (event: Event)
        ensures
            event == (Event::ContractInitialized { router: *router }),
    {
        Event::ContractInitialized { router: router.clone() }
    }
}

} // verus!
