//! Opening a market: the sale terms and time window for one selling
//! resource.

use vstd::prelude::*;

use crate::error::ErrorCode;
use crate::pubkey::{spec_system_program_id, system_program_id, Pubkey};
use crate::state::{Market, MarketState, SellingResource, SellingResourceState};
use crate::utils::{
    padded, puffed_out_string, DESCRIPTION_MAX_LEN, MINIMUM_BALANCE_FOR_SYSTEM_ACCS, NAME_MAX_LEN,
};

verus! {

/// What this program reads about the treasury accounts a market is opened
/// against: their identities, who owns them on the platform, and the mint
/// and authority recorded inside the holder when the payment asset is a
/// token.
#[derive(Clone, Copy, Debug)]
pub struct TreasuryFacts {
    /// The payment mint; the system program's identity stands for the
    /// native asset.
    pub mint: Pubkey,
    /// The escrow account that accumulates payments.
    pub holder: Pubkey,
    /// The derived authority that alone may spend from the holder.
    pub owner: Pubkey,
    /// Whether the platform records the token program as the mint
    /// account's owner.
    pub mint_owned_by_token_program: bool,
    /// Whether the platform records the token program as the holder
    /// account's owner.
    pub holder_owned_by_token_program: bool,
    /// The mint recorded inside the holder token account.
    pub holder_mint: Pubkey,
    /// The authority recorded inside the holder token account.
    pub holder_authority: Pubkey,
}

/// The full effect of a successful `create_market`.
#[derive(Clone, Debug)]
pub struct CreateMarketEffect {
    /// The market record to be written.
    pub market: Market,
    /// For a native-asset treasury: the balance the caller must move into
    /// the holder so it persists under the platform's storage-rent model.
    pub fund_treasury: Option<u64>,
}

/// The first check that fails for these inputs, if any, in the order the
/// operation performs them.  Account-level mismatches surface as
/// `PublicKeyMismatch`; a native treasury holder that is not the derived
/// treasury authority surfaces as `DerivedKeyInvalid`.
pub open spec fn create_market_error(
    sr: SellingResource,
    caller: Pubkey,
    t: TreasuryFacts,
    name: Seq<char>,
    description: Seq<char>,
    pieces_in_one_wallet: Option<u64>,
    start_date: u64,
    end_date: Option<u64>,
    now: u64,
) -> Option<ErrorCode> {
    let native = t.mint == spec_system_program_id();
    if name.len() > NAME_MAX_LEN {
        Some(ErrorCode::NameIsTooLong)
    } else if description.len() > DESCRIPTION_MAX_LEN {
        Some(ErrorCode::DescriptionIsTooLong)
    } else if pieces_in_one_wallet matches Some(p) && sr.max_supply matches Some(m) && p > m {
        Some(ErrorCode::PiecesInOneWalletIsTooMuch)
    } else if sr.state != SellingResourceState::Created {
        Some(ErrorCode::SellingResourceAlreadyTaken)
    } else if start_date < now {
        Some(ErrorCode::StartDateIsInPast)
    } else if end_date matches Some(e) && start_date > e {
        Some(ErrorCode::EndDateIsEarlierThanBeginDate)
    } else if !native && !(t.mint_owned_by_token_program && t.holder_owned_by_token_program) {
        Some(ErrorCode::PublicKeyMismatch)
    } else if !native && t.holder_mint != t.mint {
        Some(ErrorCode::PublicKeyMismatch)
    } else if !native && t.holder_authority != t.owner {
        Some(ErrorCode::PublicKeyMismatch)
    } else if native && t.holder != t.owner {
        Some(ErrorCode::DerivedKeyInvalid)
    } else if sr.owner != caller {
        Some(ErrorCode::PublicKeyMismatch)
    } else {
        None
    }
}

/// Writes the sale terms over a freshly created selling resource and flips
/// it to `InUse`, so no second market can be opened against it.
///
/// `now` is the clock value at the instant the operation runs; the caller
/// is the resource owner whose signature the platform verified.  On any
/// error the selling resource is unchanged and nothing is written.
pub fn create_market(
    selling_resource: &mut SellingResource,
    selling_resource_key: Pubkey,
    store_key: Pubkey,
    caller: Pubkey,
    treasury: &TreasuryFacts,
    name: &str,
    description: &str,
    mutable: bool,
    price: u64,
    pieces_in_one_wallet: Option<u64>,
    start_date: u64,
    end_date: Option<u64>,
    now: u64,
) -> (r: Result<CreateMarketEffect, ErrorCode>)
    ensures
        match r {
            Ok(eff) => {
                &&& create_market_error(
                    *old(selling_resource),
                    caller,
                    *treasury,
                    name@,
                    description@,
                    pieces_in_one_wallet,
                    start_date,
                    end_date,
                    now,
                ) is None
                &&& eff.market.store == store_key
                &&& eff.market.selling_resource == selling_resource_key
                &&& eff.market.treasury_mint == treasury.mint
                &&& eff.market.treasury_holder == treasury.holder
                &&& eff.market.treasury_owner == treasury.owner
                &&& eff.market.owner == caller
                &&& eff.market.name@ == padded(name@, NAME_MAX_LEN as int)
                &&& eff.market.description@ == padded(description@, DESCRIPTION_MAX_LEN as int)
                &&& eff.market.mutable == mutable
                &&& eff.market.price == price
                &&& eff.market.pieces_in_one_wallet == pieces_in_one_wallet
                &&& eff.market.start_date == start_date
                &&& eff.market.end_date == end_date
                &&& eff.market.state == MarketState::Created
                &&& eff.market.wf()
                &&& eff.fund_treasury == (if treasury.mint == spec_system_program_id() {
                    Some(MINIMUM_BALANCE_FOR_SYSTEM_ACCS)
                } else {
                    None::<u64>
                })
                &&& *final(selling_resource) == (SellingResource {
                    state: SellingResourceState::InUse,
                    ..*old(selling_resource)
                })
            },
            Err(e) => {
                &&& create_market_error(
                    *old(selling_resource),
                    caller,
                    *treasury,
                    name@,
                    description@,
                    pieces_in_one_wallet,
                    start_date,
                    end_date,
                    now,
                ) == Some(e)
                &&& *final(selling_resource) == *old(selling_resource)
            },
        },
{
    if name.unicode_len() > NAME_MAX_LEN {
        return Err(ErrorCode::NameIsTooLong);
    }
    if description.unicode_len() > DESCRIPTION_MAX_LEN {
        return Err(ErrorCode::DescriptionIsTooLong);
    }
    // The per-wallet cap may not exceed the supply ceiling.
    if let Some(p) = pieces_in_one_wallet {
        if let Some(m) = selling_resource.max_supply {
            if p > m {
                return Err(ErrorCode::PiecesInOneWalletIsTooMuch);
            }
        }
    }
    // Only a freshly created selling resource can back a market.
    if selling_resource.state != SellingResourceState::Created {
        return Err(ErrorCode::SellingResourceAlreadyTaken);
    }
    if start_date < now {
        return Err(ErrorCode::StartDateIsInPast);
    }
    if let Some(e) = end_date {
        if start_date > e {
            return Err(ErrorCode::EndDateIsEarlierThanBeginDate);
        }
    }
    let native: bool = treasury.mint == system_program_id();
    if !native {
        if !(treasury.mint_owned_by_token_program && treasury.holder_owned_by_token_program) {
            return Err(ErrorCode::PublicKeyMismatch);
        }
        if treasury.holder_mint != treasury.mint {
            return Err(ErrorCode::PublicKeyMismatch);
        }
        if treasury.holder_authority != treasury.owner {
            return Err(ErrorCode::PublicKeyMismatch);
        }
    } else {
        // For the native asset the derived treasury authority itself holds
        // the balance, so only this program can spend it.
        if treasury.holder != treasury.owner {
            return Err(ErrorCode::DerivedKeyInvalid);
        }
    }
    if selling_resource.owner != caller {
        return Err(ErrorCode::PublicKeyMismatch);
    }
    let market = Market {
        store: store_key,
        selling_resource: selling_resource_key,
        treasury_mint: treasury.mint,
        treasury_holder: treasury.holder,
        treasury_owner: treasury.owner,
        owner: caller,
        name: puffed_out_string(name, NAME_MAX_LEN),
        description: puffed_out_string(description, DESCRIPTION_MAX_LEN),
        mutable,
        price,
        pieces_in_one_wallet,
        start_date,
        end_date,
        state: MarketState::Created,
    };
    selling_resource.state = SellingResourceState::InUse;
    let fund_treasury: Option<u64> = if native {
        Some(MINIMUM_BALANCE_FOR_SYSTEM_ACCS)
    } else {
        None
    };
    Ok(CreateMarketEffect { market, fund_treasury })
}

} // verus!
