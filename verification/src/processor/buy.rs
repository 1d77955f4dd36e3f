//! The atomic purchase: validate the window and the caps, move the payment
//! into escrow, mint a new numbered copy to the buyer, and advance the
//! counters.

use vstd::prelude::*;

use crate::error::ErrorCode;
use crate::pda::{find_vault_owner_address, is_derived};
use crate::pubkey::{spec_system_program_id, system_program_id, Pubkey};
use crate::state::{Market, MarketState, SellingResource, SellingResourceState, TradeHistory};

verus! {

/// What this program reads about the buyer: the signing wallet and the
/// account the payment is drawn from.
#[derive(Clone, Copy, Debug)]
pub struct BuyerFacts {
    /// The buyer's wallet, whose signature the platform verified.
    pub wallet: Pubkey,
    /// The account the price is drawn from; the wallet itself when the
    /// payment asset is native.
    pub token_account: Pubkey,
    /// The owner recorded inside that token account, when the payment
    /// asset is a token.
    pub token_account_owner: Pubkey,
}

/// The transfers a successful purchase performs, beyond the record updates
/// it returns in place.
#[derive(Clone, Copy, Debug)]
pub struct BuyEffect {
    /// Units of the payment asset moved from the buyer's account into the
    /// treasury holder: always exactly the market's price.
    pub payment: u64,
    /// The edition number of the freshly minted copy: the supply before
    /// this purchase.
    pub edition: u64,
}

/// The first check that fails for these records, if any, in the order the
/// operation performs them: the echoed vault-authority derivation, the time
/// window, the per-wallet cap, the supply ceiling, the payment account, and
/// the counter arithmetic.
pub open spec fn buy_error(
    market: Market,
    sr: SellingResource,
    th: TradeHistory,
    buyer: BuyerFacts,
    vault_owner: Pubkey,
    vault_owner_bump: u8,
    now: u64,
) -> Option<ErrorCode> {
    let native = market.treasury_mint == spec_system_program_id();
    if !is_derived("mt_vault"@, seq![sr.resource, sr.store], vault_owner, vault_owner_bump) {
        Some(ErrorCode::DerivedKeyInvalid)
    } else if now < market.start_date {
        Some(ErrorCode::MarketIsNotStarted)
    } else if market.end_date matches Some(e) && now >= e {
        Some(ErrorCode::MarketIsEnded)
    } else if market.pieces_in_one_wallet matches Some(p) && th.already_bought >= p {
        Some(ErrorCode::UserReachBuyLimit)
    } else if sr.max_supply matches Some(m) && sr.supply >= m {
        Some(ErrorCode::SupplyIsGtThanMaxSupply)
    } else if native && buyer.token_account != buyer.wallet {
        Some(ErrorCode::UserWalletMustMatchUserTokenAccount)
    } else if !native && buyer.token_account_owner != buyer.wallet {
        Some(ErrorCode::UserWalletMustMatchUserTokenAccount)
    } else if th.already_bought == u64::MAX {
        Some(ErrorCode::MathOverflow)
    } else if sr.supply == u64::MAX {
        Some(ErrorCode::MathOverflow)
    } else {
        None
    }
}

/// The selling resource after a successful purchase: one more copy printed,
/// and `Exhausted` the moment the ceiling is reached.
pub open spec fn buy_resource_post(sr: SellingResource) -> SellingResource {
    SellingResource {
        supply: (sr.supply + 1) as u64,
        state: if sr.max_supply matches Some(m) && sr.supply + 1 == m {
            SellingResourceState::Exhausted
        } else {
            sr.state
        },
        ..sr
    }
}

/// The market after a successful purchase: activated by its first sale, and
/// ended the moment the resource is exhausted.
pub open spec fn buy_market_post(market: Market, sr: SellingResource) -> Market {
    Market {
        state: if sr.max_supply matches Some(m) && sr.supply + 1 == m {
            MarketState::Ended
        } else if market.state == MarketState::Created {
            MarketState::Active
        } else {
            market.state
        },
        ..market
    }
}

/// The sole purchase path.  Checks the echoed vault derivation, the market
/// window, the buyer's cap and the supply ceiling; on success moves the
/// price into the treasury holder, mints the next numbered copy to the
/// buyer, and advances both counters.  All effects commit together or not
/// at all: on any error every record is unchanged.
pub fn buy(
    market: &mut Market,
    selling_resource: &mut SellingResource,
    trade_history: &mut TradeHistory,
    buyer: &BuyerFacts,
    vault_owner: Pubkey,
    vault_owner_bump: u8,
    now: u64,
) -> (r: Result<BuyEffect, ErrorCode>)
    ensures
        match r {
            Ok(eff) => {
                &&& buy_error(
                    *old(market),
                    *old(selling_resource),
                    *old(trade_history),
                    *buyer,
                    vault_owner,
                    vault_owner_bump,
                    now,
                ) is None
                &&& eff.payment == old(market).price
                &&& eff.edition == old(selling_resource).supply
                &&& *final(selling_resource) == buy_resource_post(*old(selling_resource))
                &&& *final(market) == buy_market_post(*old(market), *old(selling_resource))
                &&& *final(trade_history) == (TradeHistory {
                    already_bought: (old(trade_history).already_bought + 1) as u64,
                    ..*old(trade_history)
                })
            },
            Err(e) => {
                &&& buy_error(
                    *old(market),
                    *old(selling_resource),
                    *old(trade_history),
                    *buyer,
                    vault_owner,
                    vault_owner_bump,
                    now,
                ) == Some(e)
                &&& *final(market) == *old(market)
                &&& *final(selling_resource) == *old(selling_resource)
                &&& *final(trade_history) == *old(trade_history)
            },
        },
{
    // The caller echoes the vault-authority derivation; reject any pair
    // that is not the canonical one.
    let derived = find_vault_owner_address(&selling_resource.resource, &selling_resource.store);
    let echo_ok: bool = match derived {
        Some((k, b)) => k == vault_owner && b == vault_owner_bump,
        None => false,
    };
    if !echo_ok {
        return Err(ErrorCode::DerivedKeyInvalid);
    }
    if now < market.start_date {
        return Err(ErrorCode::MarketIsNotStarted);
    }
    if let Some(e) = market.end_date {
        if now >= e {
            return Err(ErrorCode::MarketIsEnded);
        }
    }
    if let Some(p) = market.pieces_in_one_wallet {
        if trade_history.already_bought >= p {
            return Err(ErrorCode::UserReachBuyLimit);
        }
    }
    if let Some(m) = selling_resource.max_supply {
        if selling_resource.supply >= m {
            return Err(ErrorCode::SupplyIsGtThanMaxSupply);
        }
    }
    let native: bool = market.treasury_mint == system_program_id();
    if native {
        if buyer.token_account != buyer.wallet {
            return Err(ErrorCode::UserWalletMustMatchUserTokenAccount);
        }
    } else {
        if buyer.token_account_owner != buyer.wallet {
            return Err(ErrorCode::UserWalletMustMatchUserTokenAccount);
        }
    }
    if trade_history.already_bought == u64::MAX {
        return Err(ErrorCode::MathOverflow);
    }
    if selling_resource.supply == u64::MAX {
        return Err(ErrorCode::MathOverflow);
    }
    let edition: u64 = selling_resource.supply;
    trade_history.already_bought = trade_history.already_bought + 1;
    selling_resource.supply = selling_resource.supply + 1;
    let exhausted: bool = match selling_resource.max_supply {
        Some(m) => selling_resource.supply == m,
        None => false,
    };
    if exhausted {
        selling_resource.state = SellingResourceState::Exhausted;
        market.state = MarketState::Ended;
    } else if market.state == MarketState::Created {
        market.state = MarketState::Active;
    }
    Ok(BuyEffect { payment: market.price, edition })
}

} // verus!
