//! Reclaiming the unsold escrowed resource units after the market closes.

use vstd::prelude::*;

use crate::error::ErrorCode;
use crate::pda::{find_vault_owner_address, is_derived};
use crate::pubkey::Pubkey;
use crate::state::{Market, MarketState, SellingResource};

verus! {

/// The full effect of a successful `claim_resource`: every resource unit
/// still in the vault moves to the owner's destination account, authorized
/// by the derived vault authority.
#[derive(Clone, Copy, Debug)]
pub struct ClaimEffect {
    /// The escrow vault the units leave.
    pub vault: Pubkey,
    /// The account they move to.
    pub destination: Pubkey,
}

/// The first check that fails for these records, if any: the echoed vault
/// derivation, the caller owning the selling resource, the market having
/// ended, and the treasury having been emptied by withdrawals first.
pub open spec fn claim_resource_error(
    market: Market,
    sr: SellingResource,
    caller: Pubkey,
    treasury_amount: u64,
    vault_owner_bump: u8,
    now: u64,
) -> Option<ErrorCode> {
    if !is_derived("mt_vault"@, seq![sr.resource, sr.store], sr.vault_owner, vault_owner_bump) {
        Some(ErrorCode::DerivedKeyInvalid)
    } else if caller != sr.owner {
        Some(ErrorCode::SellingResourceOwnerInvalid)
    } else if market.end_date matches Some(e) && now < e {
        Some(ErrorCode::MarketInInvalidState)
    } else if market.end_date is None && market.state != MarketState::Ended {
        Some(ErrorCode::MarketInInvalidState)
    } else if treasury_amount != 0 {
        Some(ErrorCode::TreasuryIsNotEmpty)
    } else {
        None
    }
}

/// Lets the selling-resource owner reclaim the unsold units from the vault
/// once the market has ended and its proceeds have been fully paid out.
pub fn claim_resource(
    market: &Market,
    selling_resource: &SellingResource,
    caller: Pubkey,
    treasury_amount: u64,
    destination: Pubkey,
    vault_owner_bump: u8,
    now: u64,
) -> (r: Result<ClaimEffect, ErrorCode>)
    ensures
        match r {
            Ok(eff) => {
                &&& claim_resource_error(
                    *market,
                    *selling_resource,
                    caller,
                    treasury_amount,
                    vault_owner_bump,
                    now,
                ) is None
                &&& eff.vault == selling_resource.vault
                &&& eff.destination == destination
            },
            Err(e) => claim_resource_error(
                *market,
                *selling_resource,
                caller,
                treasury_amount,
                vault_owner_bump,
                now,
            ) == Some(e),
        },
{
    let derived = find_vault_owner_address(&selling_resource.resource, &selling_resource.store);
    let echo_ok: bool = match derived {
        Some((k, b)) => k == selling_resource.vault_owner && b == vault_owner_bump,
        None => false,
    };
    if !echo_ok {
        return Err(ErrorCode::DerivedKeyInvalid);
    }
    if caller != selling_resource.owner {
        return Err(ErrorCode::SellingResourceOwnerInvalid);
    }
    match market.end_date {
        Some(e) => {
            if now < e {
                return Err(ErrorCode::MarketInInvalidState);
            }
        },
        None => {
            if market.state != MarketState::Ended {
                return Err(ErrorCode::MarketInInvalidState);
            }
        },
    }
    // Royalties come first: the treasury must be fully paid out before the
    // resource leaves escrow.
    if treasury_amount != 0 {
        return Err(ErrorCode::TreasuryIsNotEmpty);
    }
    Ok(ClaimEffect { vault: selling_resource.vault, destination })
}

} // verus!
