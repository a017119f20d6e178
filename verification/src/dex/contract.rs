//! The swap desk's entry points.

use vstd::prelude::*;
use crate::dex::admin::{read_admin, set_paused, write_admin};
use crate::dex::events::{Event, Events};
use crate::dex::slippage::{calculate_min_amount, set_slippage_error, slippage_of};
use crate::dex::types::{DexStore, SwapConfig};
use crate::errors::SwapError;
use crate::sdk::{last_amount, path_items, read_last_amount};
use crate::slippage::{min_output, MAX_SLIPPAGE_BPS, MIN_SLIPPAGE_BPS};
use crate::soroswap_router::{pay_out, payout_of, Payout, RoutedSwap, SwapRequest};
use crate::types::{Approval, Context, Transfer};
use soroban_sdk::{Address, Env};

verus! {

/// The outcome of an initialization: who must authorize it, if anyone, and
/// what to announce.
#[derive(Clone, Debug, PartialEq, Eq)]
pub struct Initialized {
    /// The new administrator, where a tolerance is set along with the rest.
    pub signer: Option<Address>,
    pub event: Event,
}

/// A quote to ask of the router: the amounts out along the direct route
/// from `token_in` to `token_out` for `amount_in`.
#[derive(Clone, Debug, PartialEq, Eq)]
pub struct QuoteRequest {
    pub router: Address,
    pub factory: Address,
    pub amount_in: i128,
    pub token_in: Address,
    pub token_out: Address,
}

/// A completed swap: its payout and its announcement.
#[derive(Clone, Debug, PartialEq, Eq)]
pub struct Swapped {
    pub payout: Payout,
    pub event: Event,
}

/// Why `initialize` refuses, if it does.
pub open spec fn initialize_error(e: DexStore, slippage: Option<u32>) -> Option<SwapError> {
    if e.initialized {
        Some(SwapError::AlreadyInitialized)
    } else if slippage matches Some(bps) && (bps < MIN_SLIPPAGE_BPS || bps > MAX_SLIPPAGE_BPS) {
        Some(SwapError::InvalidAmount)
    } else {
        None
    }
}

/// Why `swap` refuses, if it does. The checks run in this order and the
/// first that fails decides.
pub open spec fn swap_error(
    e: DexStore,
    ctx: Context,
    amount_in: i128,
    allowance: i128,
    quote: i128,
) -> Option<SwapError> {
    if e.paused {
        Some(SwapError::ContractPaused)
    } else if amount_in <= 0 {
        Some(SwapError::InvalidAmount)
    } else if e.config is None {
        Some(SwapError::NotInitialized)
    } else if allowance < amount_in && !ctx.auto_approve {
        Some(SwapError::InsufficientAllowance)
    } else if quote < 0 {
        Some(SwapError::SwapFailed)
    } else {
        None
    }
}

/// The outcome of a swap whose plan was `request` and whose answer from the
/// router ended in `last`.
pub open spec fn swapped_of(
    request: SwapRequest,
    customer: Address,
    merchant: Address,
    last: Option<i128>,
) -> Result<Swapped, SwapError> {
    match payout_of(request, merchant, last) {
        Ok(payout) => Ok(
            Swapped {
                payout,
                event: Event::SwapCompleted {
                    customer,
                    merchant,
                    amount_in: request.amount_in,
                    amount_out: payout.amount_out,
                },
            },
        ),
        Err(err) => Err(err),
    }
}

/// The swap desk's entry points, one per call that the host exposes.
pub struct MuggleDex;

impl MuggleDex {
    /// Sets the desk up: market maker, administrator and, if given, the
    /// slippage tolerance. This works once; a tolerance outside the policy's
    /// bounds is refused and nothing is set.
    pub fn initialize(
        e: &mut DexStore,
        router: Address,
        factory: Address,
        admin: Address,
        slippage: Option<u32>,
    ) -> (res: Result<Initialized, SwapError>)
        ensures
            old(e).wf() ==> final(e).wf(),
            initialize_error(*old(e), slippage) matches Some(err) ==> res is Err && res->Err_0
                == err && *final(e) == *old(e),
            initialize_error(*old(e), slippage) is None ==> {
                &&& res matches Ok(done)
                &&& done.signer == (if slippage is Some {
                    Some(admin)
                } else {
                    None
                })
                &&& done.event == (Event::ContractInitialized { router })
                &&& *final(e) == (DexStore {
                    config: Some(SwapConfig { router, factory }),
                    initialized: true,
                    admin: Some(admin),
                    slippage: if slippage is Some {
                        slippage
                    } else {
                        old(e).slippage
                    },
                    ..*old(e)
                })
            },
    {
        if Self::is_initialized(e) {
            return Err(SwapError::AlreadyInitialized);
        }
        let signer: Option<Address> = match slippage {
            Some(bps) => {
                if bps < MIN_SLIPPAGE_BPS || bps > MAX_SLIPPAGE_BPS {
                    return Err(SwapError::InvalidAmount);
                }
                e.slippage = Some(bps);
                Some(admin.clone())
            },
            None => None,
        };
        let event: Event = Events::contract_initialized(&router);
        e.config = Some(SwapConfig { router, factory });
        e.initialized = true;
        write_admin(e, &admin);
        Ok(Initialized { signer, event })
    }

    /// The quote to ask of the router for `amount_in`.
    pub fn get_expected_amount(
        e: &DexStore,
        amount_in: i128,
        input_token: Address,
        output_token: Address,
    ) -> (res: Result<QuoteRequest, SwapError>)
        ensures
            e.config is None ==> res is Err && res->Err_0 == SwapError::NotInitialized,
            e.config is Some && amount_in <= 0 ==> res is Err && res->Err_0
                == SwapError::InvalidAmount,
            e.config is Some && amount_in > 0 ==> res == Ok::<QuoteRequest, SwapError>(
                QuoteRequest {
                    router: e.config->0.router,
                    factory: e.config->0.factory,
                    amount_in,
                    token_in: input_token,
                    token_out: output_token,
                },
            ),
    {
        let config: SwapConfig = match Self::get_config(e) {
            Ok(config) => config,
            Err(err) => {
                return Err(err);
            },
        };
        if amount_in <= 0 {
            return Err(SwapError::InvalidAmount);
        }
        Ok(
            QuoteRequest {
                router: config.router,
                factory: config.factory,
                amount_in,
                token_in: input_token,
                token_out: output_token,
            },
        )
    }

    /// Plans the swap of `amount_in` of `input_token` from `customer` into
    /// `output_token` for `merchant`.
    ///
    /// `allowance` is what `customer` has delegated to the desk, `pair` the
    /// pool that trades the two assets and `quote` what that pool currently
    /// offers for `amount_in`. Both parties must authorize the swap. The
    /// desk takes the amount in, extending the allowance up to ledger
    /// `expiration_ledger` where it falls short, and asks the router for at
    /// least the quote less the tolerated slippage, without a deadline.
    pub fn swap(
        e: &DexStore,
        ctx: &Context,
        customer: Address,
        merchant: Address,
        amount_in: i128,
        input_token: Address,
        output_token: Address,
        expiration_ledger: u32,
        allowance: i128,
        pair: Address,
        quote: i128,
    ) -> (res: Result<RoutedSwap, SwapError>)
        requires
            e.wf(),
        ensures
            swap_error(*e, *ctx, amount_in, allowance, quote) matches Some(err) ==> res is Err
                && res->Err_0 == err,
            swap_error(*e, *ctx, amount_in, allowance, quote) is None ==> {
                &&& res matches Ok(swap)
                &&& swap.signers@ == seq![customer, merchant]
                &&& swap.approval == (if allowance < amount_in {
                    Some(
                        Approval {
                            token: input_token,
                            owner: customer,
                            spender: ctx.contract,
                            amount: amount_in,
                            expiration_ledger,
                        },
                    )
                } else {
                    None
                })
                &&& swap.deposit == Some(
                    Transfer {
                        token: input_token,
                        from: customer,
                        to: ctx.contract,
                        amount: amount_in,
                    },
                )
                &&& swap.delegation == (Transfer {
                    token: input_token,
                    from: ctx.contract,
                    to: pair,
                    amount: amount_in,
                })
                &&& swap.request == (SwapRequest {
                    amount_in,
                    amount_out_min: min_output(quote as int, slippage_of(*e) as int) as i128,
                    token_in: input_token,
                    token_out: output_token,
                    to: ctx.contract,
                    deadline: u64::MAX,
                })
                &&& 0 <= swap.request.amount_out_min <= quote
            },
    {
        if e.paused {
            return Err(SwapError::ContractPaused);
        }
        if amount_in <= 0 {
            return Err(SwapError::InvalidAmount);
        }
        if e.config.is_none() {
            return Err(SwapError::NotInitialized);
        }
        if allowance < amount_in && !ctx.auto_approve {
            return Err(SwapError::InsufficientAllowance);
        }
        if quote < 0 {
            return Err(SwapError::SwapFailed);
        }
        let approval: Option<Approval> = if allowance < amount_in {
            Some(
                Approval {
                    token: input_token.clone(),
                    owner: customer.clone(),
                    spender: ctx.contract.clone(),
                    amount: amount_in,
                    expiration_ledger,
                },
            )
        } else {
            None
        };
        let amount_out_min: i128 = calculate_min_amount(e, quote);
        let deposit = Transfer {
            token: input_token.clone(),
            from: customer.clone(),
            to: ctx.contract.clone(),
            amount: amount_in,
        };
        let delegation = Transfer {
            token: input_token.clone(),
            from: ctx.contract.clone(),
            to: pair,
            amount: amount_in,
        };
        let mut signers: Vec<Address> = Vec::new();
        signers.push(customer);
        signers.push(merchant);
        Ok(
            RoutedSwap {
                signers,
                approval,
                deposit: Some(deposit),
                delegation,
                request: SwapRequest {
                    amount_in,
                    amount_out_min,
                    token_in: input_token,
                    token_out: output_token,
                    to: ctx.contract.clone(),
                    deadline: u64::MAX,
                },
            },
        )
    }

    /// Completes a swap whose answer from the router ended in `last`: the
    /// realized output goes to `merchant` and the swap is announced, unless
    /// the answer falls short of the floor that was asked.
    pub fn settle_swap(
        request: &SwapRequest,
        customer: &Address,
        merchant: &Address,
        last: Option<i128>,
    ) -> (res: Result<Swapped, SwapError>)
        ensures
            res == swapped_of(*request, *customer, *merchant, last),
    {
        match pay_out(request, merchant, last) {
            Ok(payout) => {
                let event: Event = Events::swap_completed(
                    customer,
                    merchant,
                    request.amount_in,
                    payout.amount_out,
                );
                Ok(Swapped { payout, event })
            },
            Err(err) => Err(err),
        }
    }

    /// Completes a swap from the router's answer.
    pub fn complete_swap(
        request: &SwapRequest,
        customer: &Address,
        merchant: &Address,
        swapped: &soroban_sdk::Vec<i128>,
    ) -> (res: Result<Swapped, SwapError>)
        ensures
            res == swapped_of(*request, *customer, *merchant, last_amount(*swapped)),
    {
        Self::settle_swap(request, customer, merchant, read_last_amount(swapped))
    }

    /// Where the desk finds the market maker.
    pub fn get_config(e: &DexStore) -> (res: Result<SwapConfig, SwapError>)
        ensures
            e.config matches Some(config) ==> res == Ok::<SwapConfig, SwapError>(config),
            e.config is None ==> res == Err::<SwapConfig, SwapError>(SwapError::NotInitialized),
    {
        match &e.config {
            Some(config) => Ok(config.clone()),
            None => Err(SwapError::NotInitialized),
        }
    }

    /// The version of the desk's interface.
    pub fn version() -> (v: u32)
        ensures
            v == 2,
    {
        2
    }

    /// Who must authorize a replacement of the desk's code: the administrator.
    pub fn upgrade(e: &DexStore) -> (res: Result<Address, SwapError>)
        ensures
            e.admin matches Some(admin) ==> res == Ok::<Address, SwapError>(admin),
            e.admin is None ==> res == Err::<Address, SwapError>(SwapError::NotInitialized),
    {
        read_admin(e)
    }

    /// Configures the slippage tolerance. Returns the administrator, whose
    /// authorization the host must obtain.
    pub fn set_slippage(e: &mut DexStore, slippage: u32) -> (res: Result<Address, SwapError>)
        ensures
            set_slippage_error(*old(e), slippage) matches Some(err) ==> res == Err::<
                Address,
                SwapError,
            >(err) && *final(e) == *old(e),
            set_slippage_error(*old(e), slippage) is None ==> res == Ok::<Address, SwapError>(
                old(e).admin->0,
            ) && *final(e) == (DexStore { slippage: Some(slippage), ..*old(e) }),
            old(e).wf() ==> final(e).wf(),
    {
        crate::dex::slippage::set_slippage(e, slippage)
    }

    /// Stops the desk from accepting swaps. Returns the administrator,
    /// whose authorization the host must obtain.
    pub fn pause(e: &mut DexStore) -> (res: Result<Address, SwapError>)
        ensures
            old(e).admin matches Some(admin) ==> res == Ok::<Address, SwapError>(admin) && *final(e)
                == (DexStore { paused: true, ..*old(e) }),
            old(e).admin is None ==> res == Err::<Address, SwapError>(SwapError::NotInitialized)
                && *final(e) == *old(e),
    {
        set_paused(e, true)
    }

    /// Lets a paused desk run again. Returns the administrator, whose
    /// authorization the host must obtain.
    pub fn unpause(e: &mut DexStore) -> (res: Result<Address, SwapError>)
        ensures
            old(e).admin matches Some(admin) ==> res == Ok::<Address, SwapError>(admin) && *final(e)
                == (DexStore { paused: false, ..*old(e) }),
            old(e).admin is None ==> res == Err::<Address, SwapError>(SwapError::NotInitialized)
                && *final(e) == *old(e),
    {
        set_paused(e, false)
    }

    /// Whether the desk was set up.
    pub fn is_initialized(e: &DexStore) -> (done: bool)
        ensures
            done == e.initialized,
    {
        e.initialized
    }

    /// The route from `input_token` straight to `output_token`.
    pub fn get_swap_path(env: &Env, input_token: &Address, output_token: &Address) -> (path:
        soroban_sdk::Vec<Address>)
        ensures
            path_items(path) == seq![*input_token, *output_token],
    {
        crate::soroswap_router::get_swap_path(env, input_token, output_token)
    }
}

} // verus!
