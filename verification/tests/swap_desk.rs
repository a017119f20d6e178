use muggle_swap::dex::admin::{has_admin, read_admin, write_admin};
use muggle_swap::dex::contract::{Initialized, MuggleDex, QuoteRequest, Swapped};
use muggle_swap::dex::events::{Event, Events};
use muggle_swap::dex::slippage::{
    calculate_min_amount, get_slippage, has_slippage, set_slippage, DEFAULT_SLIPPAGE_BPS,
};
use muggle_swap::dex::types::{DexStore, SwapConfig};
use muggle_swap::errors::SwapError;
use muggle_swap::order::get_expected_amount;
use muggle_swap::soroswap_router::{Payout, RoutedSwap, SwapRequest};
use muggle_swap::types::{Approval, Context, Transfer};
use soroban_sdk::{Address, Env};

const ADMIN: &str = "GAAQCAIBAEAQCAIBAEAQCAIBAEAQCAIBAEAQCAIBAEAQCAIBAEAQDZ7H";
const CUSTOMER: &str = "GABAEAQCAIBAEAQCAIBAEAQCAIBAEAQCAIBAEAQCAIBAEAQCAIBAEJXA";
const MERCHANT: &str = "GABQGAYDAMBQGAYDAMBQGAYDAMBQGAYDAMBQGAYDAMBQGAYDAMBQHGPC";
const CONTRACT: &str = "CABQGAYDAMBQGAYDAMBQGAYDAMBQGAYDAMBQGAYDAMBQGAYDAMBQGCK3";
const PAIR: &str = "CACAIBAEAQCAIBAEAQCAIBAEAQCAIBAEAQCAIBAEAQCAIBAEAQCAINCW";

const XLM: &str = "CDLZFC3SYJYDZT7K67VZ75HPJVIEUVNIXF47ZG2FB2RMQQVU2HHGCYSC";
const USDC: &str = "CAAFIHB4I7WQMJMKC22CZVQNNX7EONWSOMT6SUXK6I3G3F6J4XFRWNDI";
const ROUTER: &str = "CCPEDSWPNWJTRIODNYO3THDJ6RYTMMAMDCGAIORRISXKGYU632Y475IF";
const FACTORY: &str = "CD7OQTUYT7J4BN6EQWK6XX5SVDWFLKKFZ3PJ7GUJGLFIJSV52ZIQBWLG";

fn addr(env: &Env, strkey: &str) -> Address {
    Address::from_str(env, strkey)
}

fn ctx(env: &Env) -> Context {
    Context { contract: addr(env, CONTRACT), ledger_sequence: 100, auto_approve: true }
}

fn desk(env: &Env, slippage: Option<u32>) -> DexStore {
    let mut e = DexStore::new();
    MuggleDex::initialize(
        &mut e,
        addr(env, ROUTER),
        addr(env, FACTORY),
        addr(env, ADMIN),
        slippage,
    )
    .unwrap();
    e
}

/// A stand-in for the market maker: it pays 995 per 1000 put in.
fn router_answer(env: &Env, amount_in: i128) -> soroban_sdk::Vec<i128> {
    soroban_sdk::Vec::from_array(env, [amount_in, amount_in * 995 / 1000])
}

#[test]
fn test_full_flow() {
    let env = Env::default();

    const MUL_VAL: u64 = u64::pow(10, 4);

    let xlm_address = "CDLZFC3SYJYDZT7K67VZ75HPJVIEUVNIXF47ZG2FB2RMQQVU2HHGCYSC"; // XLM ADDRESS
    let usdc_address = "CAAFIHB4I7WQMJMKC22CZVQNNX7EONWSOMT6SUXK6I3G3F6J4XFRWNDI"; // USDC ADDRESS
    // SOROSWAP ROUTER ADDRESS
    let soroswap_router = "CCPEDSWPNWJTRIODNYO3THDJ6RYTMMAMDCGAIORRISXKGYU632Y475IF";
    // SOROSWAP FACTORY ADDRESS
    let soroswap_factory = "CD7OQTUYT7J4BN6EQWK6XX5SVDWFLKKFZ3PJ7GUJGLFIJSV52ZIQBWLG";

    let input_token = Address::from_str(&env, xlm_address);
    let output_token = Address::from_str(&env, usdc_address);

    // Create test accounts
    let admin = addr(&env, ADMIN);
    let customer = addr(&env, CUSTOMER);
    let merchant = addr(&env, MERCHANT);
    let deadline = 1391440;

    let router = Address::from_str(&env, soroswap_router);
    let factory = Address::from_str(&env, soroswap_factory);

    // What the customer and the merchant hold before the swap.
    let customer_balance = 1000_i128 * MUL_VAL as i128;
    let merchant_balance = 100_i128 * MUL_VAL as i128;

    // Deploy and initialize
    let mut contract = DexStore::new();
    MuggleDex::initialize(&mut contract, router.clone(), factory.clone(), admin.clone(), None)
        .unwrap();

    let config = MuggleDex::get_config(&contract).unwrap();

    assert_eq!(config.router, router);
    assert_eq!(config.factory, factory);

    // Get expected amount
    let xlm_amount = 5000000; // 5 XLM
    let quote = MuggleDex::get_expected_amount(
        &contract,
        xlm_amount,
        input_token.clone(),
        output_token.clone(),
    )
    .unwrap();
    assert_eq!(quote.router, router);
    assert_eq!(quote.amount_in, xlm_amount);
    let expected_amount = get_expected_amount(&router_answer(&env, quote.amount_in)).unwrap();
    assert!(expected_amount > 0);

    // Test swap
    let plan = MuggleDex::swap(
        &contract,
        &ctx(&env),
        customer.clone(),
        merchant.clone(),
        xlm_amount,
        input_token.clone(),
        output_token.clone(),
        deadline,
        0,
        addr(&env, PAIR),
        expected_amount,
    )
    .unwrap();
    assert_eq!(plan.approval.as_ref().unwrap().expiration_ledger, deadline);
    assert!(customer_balance >= plan.deposit.as_ref().unwrap().amount);
    let swapped = MuggleDex::complete_swap(
        &plan.request,
        &customer,
        &merchant,
        &router_answer(&env, plan.request.amount_in),
    )
    .unwrap();
    let amount_out = swapped.payout.amount_out;
    assert_eq!(amount_out, expected_amount);
    assert_eq!(swapped.payout.transfer.to, merchant);
    assert_eq!(merchant_balance + swapped.payout.transfer.amount, 1000000 + 4975000);
}

#[test]
fn desk_is_initialized_once() {
    let env = Env::default();
    let mut e = DexStore::new();
    assert!(!MuggleDex::is_initialized(&e));
    assert_eq!(MuggleDex::get_config(&e), Err(SwapError::NotInitialized));
    let done = MuggleDex::initialize(
        &mut e,
        addr(&env, ROUTER),
        addr(&env, FACTORY),
        addr(&env, ADMIN),
        None,
    );
    assert_eq!(
        done,
        Ok(Initialized {
            signer: None,
            event: Event::ContractInitialized { router: addr(&env, ROUTER) },
        })
    );
    assert!(MuggleDex::is_initialized(&e));
    assert_eq!(
        MuggleDex::get_config(&e),
        Ok(SwapConfig { router: addr(&env, ROUTER), factory: addr(&env, FACTORY) })
    );
    assert_eq!(read_admin(&e), Ok(addr(&env, ADMIN)));
    assert_eq!(get_slippage(&e), 50);
    assert!(!has_slippage(&e));

    let before = e.clone();
    let again = MuggleDex::initialize(
        &mut e,
        addr(&env, FACTORY),
        addr(&env, ROUTER),
        addr(&env, CUSTOMER),
        Some(7),
    );
    assert_eq!(again, Err(SwapError::AlreadyInitialized));
    assert_eq!(e, before);
}

#[test]
fn desk_initialized_with_a_tolerance_needs_the_administrator() {
    let env = Env::default();
    let mut e = DexStore::new();
    let done = MuggleDex::initialize(
        &mut e,
        addr(&env, ROUTER),
        addr(&env, FACTORY),
        addr(&env, ADMIN),
        Some(120),
    )
    .unwrap();
    assert_eq!(done.signer, Some(addr(&env, ADMIN)));
    assert_eq!(get_slippage(&e), 120);
    assert!(has_slippage(&e));
    assert!(e.is_valid());
}

#[test]
fn desk_is_not_initialized_with_a_tolerance_out_of_bounds() {
    let env = Env::default();
    for bad in [0u32, 5001, u32::MAX] {
        let mut e = DexStore::new();
        let res = MuggleDex::initialize(
            &mut e,
            addr(&env, ROUTER),
            addr(&env, FACTORY),
            addr(&env, ADMIN),
            Some(bad),
        );
        assert_eq!(res, Err(SwapError::InvalidAmount));
        assert_eq!(e, DexStore::new());
    }
}

#[test]
fn swap_config_accepts_any_pair() {
    let env = Env::default();
    assert_eq!(
        SwapConfig::new(addr(&env, ROUTER), addr(&env, FACTORY)),
        Ok(SwapConfig { router: addr(&env, ROUTER), factory: addr(&env, FACTORY) })
    );
    assert_eq!(
        SwapConfig::new(addr(&env, ROUTER), addr(&env, ROUTER)),
        Ok(SwapConfig { router: addr(&env, ROUTER), factory: addr(&env, ROUTER) })
    );
}

#[test]
fn desk_administrator_is_read_and_written() {
    let env = Env::default();
    let mut e = DexStore::new();
    assert!(!has_admin(&e));
    assert_eq!(read_admin(&e), Err(SwapError::NotInitialized));
    assert_eq!(MuggleDex::upgrade(&e), Err(SwapError::NotInitialized));
    write_admin(&mut e, &addr(&env, ADMIN));
    assert!(has_admin(&e));
    assert_eq!(read_admin(&e), Ok(addr(&env, ADMIN)));
    assert_eq!(MuggleDex::upgrade(&e), Ok(addr(&env, ADMIN)));
    write_admin(&mut e, &addr(&env, CUSTOMER));
    assert_eq!(read_admin(&e), Ok(addr(&env, CUSTOMER)));
}

#[test]
fn desk_version_is_two() {
    assert_eq!(MuggleDex::version(), 2);
}

#[test]
fn desk_tolerance_defaults_to_half_a_percent() {
    let e = DexStore::new();
    assert_eq!(DEFAULT_SLIPPAGE_BPS, 50);
    assert_eq!(get_slippage(&e), 50);
    assert_eq!(calculate_min_amount(&e, 1_000_000), 995_000);
    assert_eq!(calculate_min_amount(&e, 199), 199);
    assert_eq!(calculate_min_amount(&e, 200), 199);
    assert_eq!(calculate_min_amount(&e, 0), 0);
}

#[test]
fn desk_tolerance_is_set_within_bounds() {
    let env = Env::default();
    let mut fresh = DexStore::new();
    assert_eq!(set_slippage(&mut fresh, 50), Err(SwapError::NotInitialized));
    assert_eq!(MuggleDex::set_slippage(&mut fresh, 0), Err(SwapError::NotInitialized));
    assert_eq!(fresh, DexStore::new());

    let mut e = desk(&env, None);
    for bad in [0u32, 5001, u32::MAX] {
        assert_eq!(set_slippage(&mut e, bad), Err(SwapError::InvalidAmount));
        assert_eq!(MuggleDex::set_slippage(&mut e, bad), Err(SwapError::InvalidAmount));
        assert!(!has_slippage(&e));
    }
    assert_eq!(set_slippage(&mut e, 1), Ok(addr(&env, ADMIN)));
    assert_eq!(get_slippage(&e), 1);
    assert_eq!(calculate_min_amount(&e, 1_000_000), 999_900);
    assert_eq!(MuggleDex::set_slippage(&mut e, 5000), Ok(addr(&env, ADMIN)));
    assert_eq!(get_slippage(&e), 5000);
    assert_eq!(calculate_min_amount(&e, 1_000_001), 500_001);
    assert_eq!(set_slippage(&mut e, 5001), Err(SwapError::InvalidAmount));
    assert_eq!(get_slippage(&e), 5000);
    assert!(e.is_valid());
}

#[test]
fn desk_validity_goes_by_the_tolerance() {
    let mut e = DexStore::new();
    assert!(e.is_valid());
    for (bps, ok) in [(0u32, false), (1, true), (5000, true), (5001, false)] {
        e.slippage = Some(bps);
        assert_eq!(e.is_valid(), ok);
    }
}

#[test]
fn quote_request_names_the_market_maker() {
    let env = Env::default();
    let e = desk(&env, None);
    assert_eq!(
        MuggleDex::get_expected_amount(&e, 5_000_000, addr(&env, XLM), addr(&env, USDC)),
        Ok(QuoteRequest {
            router: addr(&env, ROUTER),
            factory: addr(&env, FACTORY),
            amount_in: 5_000_000,
            token_in: addr(&env, XLM),
            token_out: addr(&env, USDC),
        })
    );
    let path = MuggleDex::get_swap_path(&env, &addr(&env, XLM), &addr(&env, USDC));
    assert_eq!(path, soroban_sdk::Vec::from_array(&env, [addr(&env, XLM), addr(&env, USDC)]));
}

#[test]
fn quote_request_is_refused_on_bad_input() {
    let env = Env::default();
    let fresh = DexStore::new();
    assert_eq!(
        MuggleDex::get_expected_amount(&fresh, 0, addr(&env, XLM), addr(&env, USDC)),
        Err(SwapError::NotInitialized)
    );
    let e = desk(&env, None);
    for bad in [0i128, -1, i128::MIN] {
        assert_eq!(
            MuggleDex::get_expected_amount(&e, bad, addr(&env, XLM), addr(&env, USDC)),
            Err(SwapError::InvalidAmount)
        );
    }
}

#[test]
fn swap_is_planned_in_full() {
    let env = Env::default();
    let e = desk(&env, Some(100));
    let plan = MuggleDex::swap(
        &e,
        &ctx(&env),
        addr(&env, CUSTOMER),
        addr(&env, MERCHANT),
        5_000_000,
        addr(&env, XLM),
        addr(&env, USDC),
        1391440,
        4_999_999,
        addr(&env, PAIR),
        4_975_000,
    );
    assert_eq!(
        plan,
        Ok(RoutedSwap {
            signers: vec![addr(&env, CUSTOMER), addr(&env, MERCHANT)],
            approval: Some(Approval {
                token: addr(&env, XLM),
                owner: addr(&env, CUSTOMER),
                spender: addr(&env, CONTRACT),
                amount: 5_000_000,
                expiration_ledger: 1391440,
            }),
            deposit: Some(Transfer {
                token: addr(&env, XLM),
                from: addr(&env, CUSTOMER),
                to: addr(&env, CONTRACT),
                amount: 5_000_000,
            }),
            delegation: Transfer {
                token: addr(&env, XLM),
                from: addr(&env, CONTRACT),
                to: addr(&env, PAIR),
                amount: 5_000_000,
            },
            request: SwapRequest {
                amount_in: 5_000_000,
                // 4_975_000 less 1%
                amount_out_min: 4_925_250,
                token_in: addr(&env, XLM),
                token_out: addr(&env, USDC),
                to: addr(&env, CONTRACT),
                deadline: u64::MAX,
            },
        })
    );
}

#[test]
fn swap_with_enough_allowance_needs_no_approval() {
    let env = Env::default();
    let e = desk(&env, None);
    let mut host = ctx(&env);
    host.auto_approve = false;
    let plan = MuggleDex::swap(
        &e,
        &host,
        addr(&env, CUSTOMER),
        addr(&env, MERCHANT),
        5_000_000,
        addr(&env, XLM),
        addr(&env, USDC),
        1391440,
        5_000_000,
        addr(&env, PAIR),
        4_975_000,
    )
    .unwrap();
    assert_eq!(plan.approval, None);
    assert_eq!(plan.request.amount_out_min, 4_950_125);
}

#[test]
fn swap_is_refused_in_the_order_of_the_checks() {
    let env = Env::default();
    let plan = |e: &DexStore, auto_approve: bool, amount_in: i128, allowance: i128, quote: i128| {
        let mut host = ctx(&env);
        host.auto_approve = auto_approve;
        MuggleDex::swap(
            e,
            &host,
            addr(&env, CUSTOMER),
            addr(&env, MERCHANT),
            amount_in,
            addr(&env, XLM),
            addr(&env, USDC),
            1391440,
            allowance,
            addr(&env, PAIR),
            quote,
        )
    };
    let fresh = DexStore::new();
    let e = desk(&env, None);
    let mut paused = desk(&env, None);
    assert_eq!(MuggleDex::pause(&mut paused), Ok(addr(&env, ADMIN)));

    assert_eq!(plan(&paused, true, 0, 0, -1), Err(SwapError::ContractPaused));
    assert_eq!(plan(&fresh, false, 0, 0, -1), Err(SwapError::InvalidAmount));
    assert_eq!(plan(&fresh, false, -7, 0, -1), Err(SwapError::InvalidAmount));
    assert_eq!(plan(&fresh, false, 10, 0, -1), Err(SwapError::NotInitialized));
    assert_eq!(plan(&e, false, 10, 9, -1), Err(SwapError::InsufficientAllowance));
    assert_eq!(plan(&e, false, 10, 10, -1), Err(SwapError::SwapFailed));
    assert_eq!(plan(&e, true, 10, 9, -1), Err(SwapError::SwapFailed));
    assert!(plan(&e, true, 10, 9, 0).is_ok());
    assert!(plan(&e, false, 10, 10, 0).is_ok());

    assert_eq!(MuggleDex::unpause(&mut paused), Ok(addr(&env, ADMIN)));
    assert!(plan(&paused, true, 10, 9, 0).is_ok());
    let mut nobody = DexStore::new();
    assert_eq!(MuggleDex::pause(&mut nobody), Err(SwapError::NotInitialized));
    assert_eq!(MuggleDex::unpause(&mut nobody), Err(SwapError::NotInitialized));
}

#[test]
fn swap_is_completed_with_payout_and_announcement() {
    let env = Env::default();
    let request = SwapRequest {
        amount_in: 5_000_000,
        amount_out_min: 4_950_125,
        token_in: addr(&env, XLM),
        token_out: addr(&env, USDC),
        to: addr(&env, CONTRACT),
        deadline: u64::MAX,
    };
    let customer = addr(&env, CUSTOMER);
    let merchant = addr(&env, MERCHANT);
    let expected = Swapped {
        payout: Payout {
            amount_out: 4_960_000,
            transfer: Transfer {
                token: addr(&env, USDC),
                from: addr(&env, CONTRACT),
                to: merchant.clone(),
                amount: 4_960_000,
            },
        },
        event: Event::SwapCompleted {
            customer: customer.clone(),
            merchant: merchant.clone(),
            amount_in: 5_000_000,
            amount_out: 4_960_000,
        },
    };
    assert_eq!(
        MuggleDex::settle_swap(&request, &customer, &merchant, Some(4_960_000)),
        Ok(expected.clone())
    );
    assert_eq!(
        MuggleDex::complete_swap(
            &request,
            &customer,
            &merchant,
            &soroban_sdk::Vec::from_array(&env, [5_000_000_i128, 4_960_000]),
        ),
        Ok(expected)
    );
    assert_eq!(
        MuggleDex::settle_swap(&request, &customer, &merchant, Some(4_950_124)),
        Err(SwapError::SwapFailed)
    );
    assert_eq!(
        MuggleDex::settle_swap(&request, &customer, &merchant, None),
        Err(SwapError::SwapFailed)
    );
    assert_eq!(
        MuggleDex::complete_swap(
            &request,
            &customer,
            &merchant,
            &soroban_sdk::Vec::<i128>::new(&env),
        ),
        Err(SwapError::SwapFailed)
    );
}

#[test]
fn events_carry_what_happened() {
    let env = Env::default();
    assert_eq!(
        Events::swap_completed(&addr(&env, CUSTOMER), &addr(&env, MERCHANT), 10, 9),
        Event::SwapCompleted {
            customer: addr(&env, CUSTOMER),
            merchant: addr(&env, MERCHANT),
            amount_in: 10,
            amount_out: 9,
        }
    );
    assert_eq!(
        Events::contract_initialized(&addr(&env, ROUTER)),
        Event::ContractInitialized { router: addr(&env, ROUTER) }
    );
}
