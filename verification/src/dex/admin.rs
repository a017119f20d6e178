//! The swap desk's administrator.

use vstd::prelude::*;
use crate::dex::types::DexStore;
use crate::errors::SwapError;
use soroban_sdk::Address;

verus! {

/// Whether an administrator is named.
pub fn has_admin(e: &DexStore) -> (set: bool)
    ensures
        set == e.admin is Some,
{
    e.admin.is_some()
}

/// The administrator, whose authorization every change of configuration needs.
pub fn read_admin(e: &DexStore) -> (res: Result<Address, SwapError>)
    ensures
        e.admin matches Some(admin) ==> res == Ok::<Address, SwapError>(admin),
        e.admin is None ==> res == Err::<Address, SwapError>(SwapError::NotInitialized),
{
    match &e.admin {
        Some(admin) => Ok(admin.clone()),
        None => Err(SwapError::NotInitialized),
    }
}

/// Records `id` as the administrator and touches nothing else.
pub fn write_admin(e: &mut DexStore, id: &Address)
    ensures
        *final(e) == (DexStore { admin: Some(*id), ..*old(e) }),
{
    e.admin = Some(id.clone());
}

/// Pauses the desk or lets it run again. Returns the administrator, whose
/// authorization the host must obtain before it writes the store back.
/// Without an administrator nothing changes.
pub fn set_paused(e: &mut DexStore, paused: bool) -> (res: Result<Address, SwapError>)
    ensures
        old(e).admin matches Some(admin) ==> res == Ok::<Address, SwapError>(admin) && *final(e)
            == (DexStore { paused, ..*old(e) }),
        old(e).admin is None ==> res == Err::<Address, SwapError>(SwapError::NotInitialized)
            && *final(e) == *old(e),
{
    let admin: Address = match read_admin(e) {
        Ok(admin) => admin,
        Err(err) => {
            return Err(err);
        },
    };
    e.paused = paused;
    Ok(admin)
}

} // verus!
