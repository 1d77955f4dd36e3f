//! Mutating a market's sale terms: only its owner, only while the market
//! is mutable and strictly before its window opens.

use vstd::prelude::*;

use crate::error::ErrorCode;
use crate::pubkey::Pubkey;
use crate::state::{Market, MarketState};
use crate::utils::{padded, puffed_out_string, DESCRIPTION_MAX_LEN, NAME_MAX_LEN};

verus! {

/// The first check that fails for these inputs, if any: ownership, the
/// mutability flag, the market's end, the not-yet-started window, the text
/// widths, and a zero price.
pub open spec fn change_market_error(
    market: Market,
    caller: Pubkey,
    now: u64,
    new_name: Option<String>,
    new_description: Option<String>,
    new_price: Option<u64>,
) -> Option<ErrorCode> {
    if caller != market.owner {
        Some(ErrorCode::PublicKeyMismatch)
    } else if !market.mutable {
        Some(ErrorCode::MarketIsImmutable)
    } else if market.end_date matches Some(e) && now >= e {
        Some(ErrorCode::MarketIsEnded)
    } else if market.end_date is None && market.state == MarketState::Ended {
        Some(ErrorCode::MarketIsEnded)
    } else if now >= market.start_date {
        Some(ErrorCode::MarketInInvalidState)
    } else if new_name matches Some(n) && n@.len() > NAME_MAX_LEN {
        Some(ErrorCode::NameIsTooLong)
    } else if new_description matches Some(d) && d@.len() > DESCRIPTION_MAX_LEN {
        Some(ErrorCode::DescriptionIsTooLong)
    } else if new_price matches Some(p) && p == 0 {
        Some(ErrorCode::PriceIsZero)
    } else {
        None
    }
}

/// Overwrites the mutable sale terms.  Only the market owner may call it;
/// it fails once the market is immutable, ended, or already started, and
/// on any error no field is changed.
pub fn change_market(
    market: &mut Market,
    caller: Pubkey,
    now: u64,
    new_name: Option<String>,
    new_description: Option<String>,
    mutable: Option<bool>,
    new_price: Option<u64>,
    new_pieces_in_one_wallet: Option<u64>,
) -> (r: Result<(), ErrorCode>)
    ensures
        match r {
            Ok(()) => {
                &&& change_market_error(
                    *old(market),
                    caller,
                    now,
                    new_name,
                    new_description,
                    new_price,
                ) is None
                &&& final(market).name@ == (if new_name is Some {
                    padded(new_name->0@, NAME_MAX_LEN as int)
                } else {
                    old(market).name@
                })
                &&& final(market).description@ == (if new_description is Some {
                    padded(new_description->0@, DESCRIPTION_MAX_LEN as int)
                } else {
                    old(market).description@
                })
                &&& final(market).mutable == (if mutable is Some {
                    mutable->0
                } else {
                    old(market).mutable
                })
                &&& final(market).price == (if new_price is Some {
                    new_price->0
                } else {
                    old(market).price
                })
                &&& final(market).pieces_in_one_wallet == (if new_pieces_in_one_wallet is Some {
                    new_pieces_in_one_wallet
                } else {
                    old(market).pieces_in_one_wallet
                })
                &&& final(market).store == old(market).store
                &&& final(market).selling_resource == old(market).selling_resource
                &&& final(market).treasury_mint == old(market).treasury_mint
                &&& final(market).treasury_holder == old(market).treasury_holder
                &&& final(market).treasury_owner == old(market).treasury_owner
                &&& final(market).owner == old(market).owner
                &&& final(market).start_date == old(market).start_date
                &&& final(market).end_date == old(market).end_date
                &&& final(market).state == old(market).state
                &&& old(market).wf() ==> final(market).wf()
            },
            Err(e) => {
                &&& change_market_error(
                    *old(market),
                    caller,
                    now,
                    new_name,
                    new_description,
                    new_price,
                ) == Some(e)
                &&& *final(market) == *old(market)
            },
        },
{
    if caller != market.owner {
        return Err(ErrorCode::PublicKeyMismatch);
    }
    if !market.mutable {
        return Err(ErrorCode::MarketIsImmutable);
    }
    // The market must not have ended ...
    match market.end_date {
        Some(e) => {
            if now >= e {
                return Err(ErrorCode::MarketIsEnded);
            }
        },
        None => {
            if market.state == MarketState::Ended {
                return Err(ErrorCode::MarketIsEnded);
            }
        },
    }
    // ... and must not have started: terms change only before the window
    // opens.
    if now >= market.start_date {
        return Err(ErrorCode::MarketInInvalidState);
    }
    if let Some(n) = &new_name {
        if n.as_str().unicode_len() > NAME_MAX_LEN {
            return Err(ErrorCode::NameIsTooLong);
        }
    }
    if let Some(d) = &new_description {
        if d.as_str().unicode_len() > DESCRIPTION_MAX_LEN {
            return Err(ErrorCode::DescriptionIsTooLong);
        }
    }
    if let Some(p) = new_price {
        if p == 0 {
            return Err(ErrorCode::PriceIsZero);
        }
    }
    if let Some(n) = &new_name {
        market.name = puffed_out_string(n.as_str(), NAME_MAX_LEN);
    }
    if let Some(d) = &new_description {
        market.description = puffed_out_string(d.as_str(), DESCRIPTION_MAX_LEN);
    }
    if let Some(m) = mutable {
        market.mutable = m;
    }
    if let Some(p) = new_price {
        market.price = p;
    }
    if let Some(p) = new_pieces_in_one_wallet {
        market.pieces_in_one_wallet = Some(p);
    }
    Ok(())
}

} // verus!
