//! The Soroban SDK values that the engine handles.
//!
//! What this file declares of the SDK is trusted: the verifier takes the
//! declared types, the functions without a body and the contracts of the
//! functions that call the SDK on faith, and every proof in the crate that
//! touches an address, an SDK error or an SDK vector rests on them.

use vstd::prelude::*;

verus! {

/// `soroban_sdk::Address`, an account or contract identity. The engine never
/// looks inside one: it stores, copies and hands them back to the host.
#[verifier::external_type_specification]
#[verifier::external_body]
pub struct ExAddress(soroban_sdk::Address);

/// `soroban_sdk::Error`, the status value that the host passes around.
#[verifier::external_type_specification]
#[verifier::external_body]
pub struct ExError(soroban_sdk::Error);

/// `<Address as Clone>::clone`: the derived clone copies the handle, so the
/// copy names the same identity as the address it was made from.
pub assume_specification[ <soroban_sdk::Address as Clone>::clone ](a: &soroban_sdk::Address) -> (r:
    soroban_sdk::Address)
    ensures
        r == *a,
;

/// The code carried by an SDK error, as `soroban_sdk::Error::get_code` reads it.
pub uninterp spec fn sdk_error_code(err: soroban_sdk::Error) -> u32;

/// Whether an SDK error is of the type reserved for contracts' own errors,
/// as `soroban_sdk::Error::is_type` tells for `ScErrorType::Contract`.
pub uninterp spec fn sdk_error_is_contract(err: soroban_sdk::Error) -> bool;

/// `soroban_sdk::Error::from_contract_error`: an error of the contract type
/// that carries `code`, so that reading the code back yields `code` again.
#[verifier::external_body]
pub(crate) fn contract_error(code: u32) -> (err: soroban_sdk::Error)
    ensures
        sdk_error_is_contract(err),
        sdk_error_code(err) == code,
{
    soroban_sdk::Error::from_contract_error(code)
}

/// `soroban_sdk::Error::get_code`: the code of `err`, whatever its type.
#[verifier::external_body]
pub(crate) fn error_code(err: &soroban_sdk::Error) -> (code: u32)
    ensures
        code == sdk_error_code(*err),
{
    err.get_code()
}

/// `soroban_sdk::Env`, the handle to the host. The engine only passes it on
/// to the SDK when it builds a vector.
#[verifier::external_type_specification]
#[verifier::external_body]
pub struct ExEnv(soroban_sdk::Env);

/// `soroban_sdk::Vec`, a vector that lives in the host.
#[verifier::external_type_specification]
#[verifier::external_body]
#[verifier::reject_recursive_types(T)]
pub struct ExVec<T>(soroban_sdk::Vec<T>);

/// `<Address as PartialEq>::eq`: two addresses compare equal exactly when
/// they name the same identity.
#[verifier::external_body]
pub(crate) fn same_address(a: &soroban_sdk::Address, b: &soroban_sdk::Address) -> (same: bool)
    ensures
        same == (*a == *b),
{
    a == b
}

/// The addresses that a host vector of addresses holds, first to last.
pub uninterp spec fn path_items(path: soroban_sdk::Vec<soroban_sdk::Address>) -> Seq<
    soroban_sdk::Address,
>;

/// `soroban_sdk::Vec::new`: a vector that holds nothing.
#[verifier::external_body]
pub(crate) fn empty_path(env: &soroban_sdk::Env) -> (path: soroban_sdk::Vec<soroban_sdk::Address>)
    ensures
        path_items(path) == Seq::<soroban_sdk::Address>::empty(),
{
    soroban_sdk::Vec::new(env)
}

/// `soroban_sdk::Vec::push_back`: the vector grows by one and `hop` becomes
/// its last item; the items before it stay as they were.
#[verifier::external_body]
pub(crate) fn push_hop(path: &mut soroban_sdk::Vec<soroban_sdk::Address>, hop: soroban_sdk::Address)
    ensures
        path_items(*final(path)) == path_items(*old(path)).push(hop),
{
    path.push_back(hop)
}

/// What a host vector of amounts holds, first to last: each item as the
/// amount it is, or as nothing where the host holds something else in its
/// place. The host does not test the items of a vector that it hands over
/// as a vector of amounts.
pub uninterp spec fn amounts_of(amounts: soroban_sdk::Vec<i128>) -> Seq<Option<i128>>;

/// The last of a run of items that may be amounts: nothing where the run is
/// empty or its last item is no amount.
pub open spec fn last_item(items: Seq<Option<i128>>) -> Option<i128> {
    if items.len() == 0 {
        None
    } else {
        items.last()
    }
}

/// The last amount of a host vector of amounts.
pub open spec fn last_amount(amounts: soroban_sdk::Vec<i128>) -> Option<i128> {
    last_item(amounts_of(amounts))
}

/// `soroban_sdk::Vec::try_last`: nothing of an empty vector, else its last
/// item; a last item that is no amount, which the SDK reports as a failed
/// conversion, is read as no item at all.
#[verifier::external_body]
pub(crate) fn read_last_amount(amounts: &soroban_sdk::Vec<i128>) -> (last: Option<i128>)
    ensures
        last == last_item(amounts_of(*amounts)),
{
    match amounts.try_last() {
        Ok(last) => last,
        Err(_) => None,
    }
}

} // verus!
