//! The list of assets admitted for trading.

use vstd::prelude::*;
use crate::admin::read_admin;
use crate::errors::SwapError;
use crate::sdk::same_address;
use crate::types::Store;
use soroban_sdk::Address;

verus! {

/// Whether `token` is on the list.
pub fn allow_get(e: &Store, token: &Address) -> (allowed: bool)
    ensures
        allowed == e.allowed@.contains(*token),
{
    let mut i: usize = 0;
    while i < e.allowed.len()
        invariant
            i <= e.allowed@.len(),
            forall|j: int| 0 <= j < i ==> e.allowed@[j] != *token,
        decreases e.allowed@.len() - i,
    {
        if same_address(&e.allowed[i], token) {
            return true;
        }
        i += 1;
    }
    false
}

/// Puts `token_addr` on the list, where it is not yet. Returns the
/// administrator, whose authorization the host must obtain before it
/// writes the store back. Without an administrator nothing changes.
pub fn allow_set(e: &mut Store, token_addr: &Address) -> (res: Result<Address, SwapError>)
    ensures
        old(e).admin is None ==> res == Err::<Address, SwapError>(SwapError::NotInitialized)
            && *final(e) == *old(e),
        old(e).admin matches Some(admin) ==> {
            &&& res == Ok::<Address, SwapError>(admin)
            &&& *final(e) == (Store { allowed: final(e).allowed, ..*old(e) })
            &&& final(e).allowed@ == (if old(e).allowed@.contains(*token_addr) {
                old(e).allowed@
            } else {
                old(e).allowed@.push(*token_addr)
            })
            &&& final(e).allowed@.contains(*token_addr)
            &&& forall|other: Address|
                other != *token_addr ==> final(e).allowed@.contains(other) == old(
                    e,
                ).allowed@.contains(other)
        },
{
    let admin: Address = match read_admin(e) {
        Ok(admin) => admin,
        Err(err) => {
            return Err(err);
        },
    };
    if !allow_get(e, token_addr) {
        e.allowed.push(token_addr.clone());
        proof {
            let before = old(e).allowed@;
            let after = e.allowed@;
            assert(after[before.len() as int] == *token_addr);
            assert forall|other: Address| other != *token_addr implies after.contains(other)
                == before.contains(other) by {
                if before.contains(other) {
                    let j = choose|j: int| 0 <= j < before.len() && before[j] == other;
                    assert(after[j] == other);
                }
            }
        }
    }
    Ok(admin)
}

/// Takes `token_addr` off the list, wherever it stands on it. Returns the
/// administrator, whose authorization the host must obtain before it
/// writes the store back. Without an administrator nothing changes.
pub fn allow_reset(e: &mut Store, token_addr: &Address) -> (res: Result<Address, SwapError>)
    ensures
        old(e).admin is None ==> res == Err::<Address, SwapError>(SwapError::NotInitialized)
            && *final(e) == *old(e),
        old(e).admin matches Some(admin) ==> {
            &&& res == Ok::<Address, SwapError>(admin)
            &&& *final(e) == (Store { allowed: final(e).allowed, ..*old(e) })
            &&& final(e).allowed@ == old(e).allowed@.filter(|listed: Address| listed != *token_addr)
            &&& !final(e).allowed@.contains(*token_addr)
            &&& forall|other: Address|
                other != *token_addr ==> final(e).allowed@.contains(other) == old(
                    e,
                ).allowed@.contains(other)
        },
{
    let admin: Address = match read_admin(e) {
        Ok(admin) => admin,
        Err(err) => {
            return Err(err);
        },
    };
    let ghost keep = |listed: Address| listed != *token_addr;
    let mut kept: Vec<Address> = Vec::new();
    let mut i: usize = 0;
    while i < e.allowed.len()
        invariant
            *e == *old(e),
            i <= e.allowed@.len(),
            keep == (|listed: Address| listed != *token_addr),
            kept@ == e.allowed@.take(i as int).filter(keep),
        decreases e.allowed@.len() - i,
    {
        proof {
            let next = e.allowed@.take(i + 1);
            assert(next.drop_last() =~= e.allowed@.take(i as int));
            assert(next.last() == e.allowed@[i as int]);
            reveal(Seq::filter);
        }
        if !same_address(&e.allowed[i], token_addr) {
            kept.push(e.allowed[i].clone());
        }
        i += 1;
    }
    proof {
        let before = e.allowed@;
        assert(before.take(before.len() as int) =~= before);
        if kept@.contains(*token_addr) {
            let j = choose|j: int| 0 <= j < kept@.len() && kept@[j] == *token_addr;
            before.lemma_filter_pred(keep, j);
        }
        assert forall|other: Address| other != *token_addr implies kept@.contains(other)
            == before.contains(other) by {
            if before.contains(other) {
                let j = choose|j: int| 0 <= j < before.len() && before[j] == other;
                before.lemma_filter_contains(keep, j);
            }
            if kept@.contains(other) {
                before.lemma_filter_contains_rev(keep, other);
            }
        }
    }
    e.allowed = kept;
    Ok(admin)
}

} // verus!
