//! Closing an unbounded market: the owner-set marker that gates
//! withdrawals.

use vstd::prelude::*;

use crate::error::ErrorCode;
use crate::pubkey::Pubkey;
use crate::state::{Market, MarketState};

verus! {

/// The first check that fails, if any: only the owner may close, and only
/// a market without an end date needs closing — one with an end date ends
/// by the clock alone.
pub open spec fn close_market_error(market: Market, caller: Pubkey) -> Option<ErrorCode> {
    if caller != market.owner {
        Some(ErrorCode::PublicKeyMismatch)
    } else if market.end_date is Some {
        Some(ErrorCode::MarketDurationIsNotUnlimited)
    } else {
        None
    }
}

/// Sets the explicit `Ended` marker on a market of unlimited duration, so
/// withdrawals and reclaims are gated open.  On any error the market is
/// unchanged.
pub fn close_market(market: &mut Market, caller: Pubkey) -> (r: Result<(), ErrorCode>)
    ensures
        match r {
            Ok(()) => {
                &&& close_market_error(*old(market), caller) is None
                &&& *final(market) == (Market { state: MarketState::Ended, ..*old(market) })
            },
            Err(e) => {
                &&& close_market_error(*old(market), caller) == Some(e)
                &&& *final(market) == *old(market)
            },
        },
{
    if caller != market.owner {
        return Err(ErrorCode::PublicKeyMismatch);
    }
    if market.end_date.is_some() {
        return Err(ErrorCode::MarketDurationIsNotUnlimited);
    }
    market.state = MarketState::Ended;
    Ok(())
}

} // verus!
