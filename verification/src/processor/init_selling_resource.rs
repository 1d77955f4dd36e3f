//! Registering a selling resource: binding one mintable resource, with a
//! supply ceiling, to a store and an escrow vault.

use vstd::prelude::*;

use crate::error::ErrorCode;
use crate::pda::{find_vault_owner_address, is_derived};
use crate::pubkey::Pubkey;
use crate::state::{MasterEdition, SellingResource, SellingResourceState, Store};

verus! {

/// The first check that fails for these inputs, if any: the caller must be
/// the store administrator, the echoed vault-authority derivation must be
/// canonical, and the requested ceiling must be consistent with what the
/// resource can still produce.
pub open spec fn init_selling_resource_error(
    store: Store,
    store_key: Pubkey,
    caller: Pubkey,
    resource_mint: Pubkey,
    vault_owner: Pubkey,
    vault_owner_bump: u8,
    master_edition: MasterEdition,
    max_supply: Option<u64>,
) -> Option<ErrorCode> {
    if caller != store.admin {
        Some(ErrorCode::PublicKeyMismatch)
    } else if !is_derived(
        "mt_vault"@,
        seq![resource_mint, store_key],
        vault_owner,
        vault_owner_bump,
    ) {
        Some(ErrorCode::DerivedKeyInvalid)
    } else if master_edition.max_supply matches Some(me_max) && max_supply is None {
        Some(ErrorCode::SupplyIsNotProvided)
    } else if master_edition.max_supply matches Some(me_max) && max_supply matches Some(s) && s
        > me_max - master_edition.supply {
        Some(ErrorCode::SupplyIsGtThanAvailable)
    } else {
        None
    }
}

/// Creates the selling resource in state `Created`: owned by the
/// designated owner (who may differ from the administrator), bound to the
/// store, the resource and the escrow vault, with no copies printed yet.
///
/// When the resource's master edition has a finite ceiling, a ceiling must
/// be provided here and may not exceed what the resource can still
/// produce; an unbounded resource accepts any ceiling, or none.
pub fn init_selling_resource(
    store: &Store,
    store_key: Pubkey,
    caller: Pubkey,
    selling_resource_owner: Pubkey,
    resource_mint: Pubkey,
    vault: Pubkey,
    vault_owner: Pubkey,
    vault_owner_bump: u8,
    master_edition: &MasterEdition,
    max_supply: Option<u64>,
) -> (r: Result<SellingResource, ErrorCode>)
    requires
        master_edition.wf(),
    ensures
        match r {
            Ok(sr) => {
                &&& init_selling_resource_error(
                    *store,
                    store_key,
                    caller,
                    resource_mint,
                    vault_owner,
                    vault_owner_bump,
                    *master_edition,
                    max_supply,
                ) is None
                &&& sr == (SellingResource {
                    store: store_key,
                    owner: selling_resource_owner,
                    resource: resource_mint,
                    vault,
                    vault_owner,
                    supply: 0,
                    max_supply,
                    state: SellingResourceState::Created,
                })
                &&& sr.wf()
            },
            Err(e) => init_selling_resource_error(
                *store,
                store_key,
                caller,
                resource_mint,
                vault_owner,
                vault_owner_bump,
                *master_edition,
                max_supply,
            ) == Some(e),
        },
{
    if caller != store.admin {
        return Err(ErrorCode::PublicKeyMismatch);
    }
    let derived = find_vault_owner_address(&resource_mint, &store_key);
    let echo_ok: bool = match derived {
        Some((k, b)) => k == vault_owner && b == vault_owner_bump,
        None => false,
    };
    if !echo_ok {
        return Err(ErrorCode::DerivedKeyInvalid);
    }
    if let Some(me_max) = master_edition.max_supply {
        let available: u64 = me_max - master_edition.supply;
        match max_supply {
            None => {
                return Err(ErrorCode::SupplyIsNotProvided);
            },
            Some(s) => {
                if s > available {
                    return Err(ErrorCode::SupplyIsGtThanAvailable);
                }
            },
        }
    }
    Ok(
        SellingResource {
            store: store_key,
            owner: selling_resource_owner,
            resource: resource_mint,
            vault,
            vault_owner,
            supply: 0,
            max_supply,
            state: SellingResourceState::Created,
        },
    )
}

} // verus!
