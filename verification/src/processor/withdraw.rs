//! Idempotent, share-proportional payout of accumulated escrow funds after
//! a market has closed.

use vstd::prelude::*;

use crate::error::ErrorCode;
use crate::pda::{find_payout_ticket_address, find_treasury_owner_address, is_derived};
use crate::pubkey::{spec_system_program_id, system_program_id, Pubkey};
use crate::state::{Creator, Market, MarketState, Metadata, PayoutTicket, PrimaryMetadataCreators};

verus! {

/// What this program reads about the account a payout is sent to.
#[derive(Clone, Copy, Debug)]
pub struct DestinationFacts {
    /// The account the funder's entitlement goes to.
    pub destination: Pubkey,
    /// The owner recorded inside that token account, when the payment
    /// asset is a token.
    pub owner: Pubkey,
    /// The mint recorded inside that token account, when the payment
    /// asset is a token.
    pub mint: Pubkey,
}

/// The full effect of a successful `withdraw`: the transfer to perform and
/// the ticket to create, committed in the same atomic step.
#[derive(Clone, Copy, Debug)]
pub struct WithdrawEffect {
    /// Units of the payment asset moved from the treasury holder to the
    /// destination.
    pub amount: u64,
    /// The idempotency marker to create at the derived (market, funder)
    /// address.
    pub ticket: PayoutTicket,
}

/// The share of the first creator whose identity is `funder`, if any.
pub open spec fn find_share(creators: Seq<Creator>, funder: Pubkey) -> Option<u8>
    decreases creators.len(),
{
    if creators.len() == 0 {
        None
    } else if creators[0].address == funder {
        Some(creators[0].share)
    } else {
        find_share(creators.drop_first(), funder)
    }
}

/// The creator list a payout for this market draws its shares from: the
/// primary-sale snapshot while the resource has not had its primary sale,
/// and the resource's standard creator metadata afterwards.
pub open spec fn payout_creators(
    metadata: Metadata,
    primary_creators: Option<&PrimaryMetadataCreators>,
) -> Seq<Creator> {
    if !metadata.primary_sale_happened {
        match primary_creators {
            Some(pmc) => pmc.creators@,
            None => Seq::empty(),
        }
    } else {
        match metadata.creators {
            Some(c) => c@,
            None => Seq::empty(),
        }
    }
}

/// A funder's entitlement: its percentage share of the whole treasury
/// balance, rounded down.
pub open spec fn payout_amount(treasury_amount: u64, share: u8) -> int {
    (treasury_amount * share) / 100
}

/// The first check that fails for these records, if any, in the order the
/// operation performs them: the caller's ownership, the market's end, the
/// two echoed derivations, the idempotency gate, the share lookup, the
/// destination, and the entitlement arithmetic.
pub open spec fn withdraw_error(
    market: Market,
    market_key: Pubkey,
    metadata: Metadata,
    treasury_amount: u64,
    funder: Pubkey,
    dest: DestinationFacts,
    ticket_exists: bool,
    primary_creators: Option<&PrimaryMetadataCreators>,
    treasury_owner_bump: u8,
    payout_ticket_key: Pubkey,
    payout_ticket_bump: u8,
    caller: Pubkey,
    now: u64,
) -> Option<ErrorCode> {
    let native = market.treasury_mint == spec_system_program_id();
    let creators = payout_creators(metadata, primary_creators);
    if caller != market.owner {
        Some(ErrorCode::SellingResourceOwnerInvalid)
    } else if market.end_date matches Some(e) && now < e {
        Some(ErrorCode::MarketInInvalidState)
    } else if market.end_date is None && market.state != MarketState::Ended {
        Some(ErrorCode::MarketInInvalidState)
    } else if !is_derived(
        "holder"@,
        seq![market.treasury_mint, market.selling_resource],
        market.treasury_owner,
        treasury_owner_bump,
    ) {
        Some(ErrorCode::DerivedKeyInvalid)
    } else if !is_derived(
        "payout_ticket"@,
        seq![market_key, funder],
        payout_ticket_key,
        payout_ticket_bump,
    ) {
        Some(ErrorCode::DerivedKeyInvalid)
    } else if ticket_exists {
        Some(ErrorCode::PayoutTicketExists)
    } else if !metadata.primary_sale_happened && primary_creators is None {
        Some(ErrorCode::PrimaryMetadataCreatorsNotProvided)
    } else if find_share(creators, funder) is None {
        Some(ErrorCode::FunderIsInvalid)
    } else if native && dest.destination != funder {
        Some(ErrorCode::InvalidFunderDestination)
    } else if !native && !(dest.owner == funder && dest.mint == market.treasury_mint) {
        Some(ErrorCode::InvalidFunderDestination)
    } else if payout_amount(treasury_amount, find_share(creators, funder)->0) > u64::MAX {
        Some(ErrorCode::MathOverflow)
    } else {
        None
    }
}

/// Finds the first creator whose identity is `funder` and hands back its
/// share.
fn lookup_share(creators: &Vec<Creator>, funder: Pubkey) -> (r: Option<u8>)
    ensures
        r == find_share(creators@, funder),
{
    let n: usize = creators.len();
    let mut i: usize = 0;
    proof {
        assert(creators@.skip(0) =~= creators@);
    }
    while i < n
        invariant
            n == creators@.len(),
            0 <= i <= n,
            find_share(creators@, funder) == find_share(creators@.skip(i as int), funder),
        decreases n - i,
    {
        proof {
            assert(creators@.skip(i as int)[0] == creators@[i as int]);
            assert(creators@.skip(i as int).drop_first() =~= creators@.skip(i + 1));
        }
        if creators[i].address == funder {
            return Some(creators[i].share);
        }
        i = i + 1;
    }
    proof {
        assert(creators@.skip(n as int) =~= Seq::<Creator>::empty());
    }
    None
}

/// Pays one royalty recipient its entitlement exactly once.
///
/// Only the market owner may invoke it, only once the market has ended.
/// The entitlement is the funder's percentage share of the whole treasury
/// balance, with the share taken from the primary-sale snapshot before the
/// resource's primary sale and from its standard creator metadata
/// afterwards.  The existence of a payout ticket at the derived
/// (market, funder) address is the idempotency gate: when one exists the
/// operation fails, and on success the returned transfer and ticket are
/// committed in the same atomic step.
pub fn withdraw(
    market: &Market,
    market_key: Pubkey,
    metadata: &Metadata,
    treasury_amount: u64,
    funder: Pubkey,
    dest: &DestinationFacts,
    ticket_exists: bool,
    primary_creators: Option<&PrimaryMetadataCreators>,
    treasury_owner_bump: u8,
    payout_ticket_key: Pubkey,
    payout_ticket_bump: u8,
    caller: Pubkey,
    now: u64,
) -> (r: Result<WithdrawEffect, ErrorCode>)
    ensures
        match r {
            Ok(eff) => {
                &&& withdraw_error(
                    *market,
                    market_key,
                    *metadata,
                    treasury_amount,
                    funder,
                    *dest,
                    ticket_exists,
                    primary_creators,
                    treasury_owner_bump,
                    payout_ticket_key,
                    payout_ticket_bump,
                    caller,
                    now,
                ) is None
                &&& !ticket_exists
                &&& eff.amount == payout_amount(
                    treasury_amount,
                    find_share(payout_creators(*metadata, primary_creators), funder)->0,
                )
                &&& eff.ticket == (PayoutTicket { market: market_key, funder })
            },
            Err(e) => withdraw_error(
                *market,
                market_key,
                *metadata,
                treasury_amount,
                funder,
                *dest,
                ticket_exists,
                primary_creators,
                treasury_owner_bump,
                payout_ticket_key,
                payout_ticket_bump,
                caller,
                now,
            ) == Some(e),
        },
{
    if caller != market.owner {
        return Err(ErrorCode::SellingResourceOwnerInvalid);
    }
    // The market must have ended: its window passed, or — for an unbounded
    // market — its owner closed it.
    match market.end_date {
        Some(e) => {
            if now < e {
                return Err(ErrorCode::MarketInInvalidState);
            }
        },
        None => {
            if market.state != MarketState::Ended {
                return Err(ErrorCode::MarketInInvalidState);
            }
        },
    }
    let derived_owner = find_treasury_owner_address(
        &market.treasury_mint,
        &market.selling_resource,
    );
    let owner_ok: bool = match derived_owner {
        Some((k, b)) => k == market.treasury_owner && b == treasury_owner_bump,
        None => false,
    };
    if !owner_ok {
        return Err(ErrorCode::DerivedKeyInvalid);
    }
    let derived_ticket = find_payout_ticket_address(&market_key, &funder);
    let ticket_ok: bool = match derived_ticket {
        Some((k, b)) => k == payout_ticket_key && b == payout_ticket_bump,
        None => false,
    };
    if !ticket_ok {
        return Err(ErrorCode::DerivedKeyInvalid);
    }
    // The idempotency gate: a ticket at the derived address is the proof
    // that this funder has already been paid for this market.
    if ticket_exists {
        return Err(ErrorCode::PayoutTicketExists);
    }
    let share: Option<u8> = if !metadata.primary_sale_happened {
        match primary_creators {
            Some(pmc) => lookup_share(&pmc.creators, funder),
            None => {
                return Err(ErrorCode::PrimaryMetadataCreatorsNotProvided);
            },
        }
    } else {
        match &metadata.creators {
            Some(c) => lookup_share(c, funder),
            None => {
                proof {
                    assert(payout_creators(*metadata, primary_creators) =~= Seq::<
                        Creator,
                    >::empty());
                }
                None
            },
        }
    };
    let share: u8 = match share {
        Some(s) => s,
        None => {
            return Err(ErrorCode::FunderIsInvalid);
        },
    };
    let native: bool = market.treasury_mint == system_program_id();
    if native {
        if dest.destination != funder {
            return Err(ErrorCode::InvalidFunderDestination);
        }
    } else {
        if !(dest.owner == funder && dest.mint == market.treasury_mint) {
            return Err(ErrorCode::InvalidFunderDestination);
        }
    }
    proof {
        assert(treasury_amount * share <= u64::MAX * (u8::MAX as int)) by (nonlinear_arith)
            requires
                treasury_amount <= u64::MAX,
                share <= u8::MAX,
        ;
    }
    let amount_wide: u128 = (treasury_amount as u128) * (share as u128) / 100;
    if amount_wide > u64::MAX as u128 {
        return Err(ErrorCode::MathOverflow);
    }
    let amount: u64 = amount_wide as u64;
    Ok(WithdrawEffect { amount, ticket: PayoutTicket { market: market_key, funder } })
}

} // verus!
