//! The global guarantees of the marketplace, stated and proved over the
//! operations' own specifications.
//!
//! Each law here is phrased over the spec functions that the operations'
//! contracts use, so what an operation's `ensures` establishes for one
//! step is exactly what a law's `requires` consumes.

use vstd::prelude::*;

use crate::error::ErrorCode;
use crate::processor::buy::buy_resource_post;
use crate::processor::change_market::change_market_error;
use crate::processor::withdraw::{withdraw_error, DestinationFacts};
use crate::pubkey::Pubkey;
use crate::state::{
    Market, Metadata, PrimaryMetadataCreators, SellingResource, TradeHistory,
};
use crate::utils::padded;

verus! {

/// What one successful purchase establishes for the selling resource: the
/// contract of `buy` gives, on success, exactly that the ceiling was not
/// yet reached, that the counter did not saturate, and that the new record
/// is `buy_resource_post` of the old.
pub open spec fn supply_step(pre: SellingResource, post: SellingResource) -> bool {
    &&& (pre.max_supply matches Some(m) ==> pre.supply < m)
    &&& pre.supply < u64::MAX
    &&& post == buy_resource_post(pre)
}

/// Over any sequence of successful purchases against one selling resource,
/// the printed supply is monotonically non-decreasing, the ceiling never
/// changes, and the supply never exceeds the ceiling when one is set.
pub proof fn lemma_supply_monotonic(states: Seq<SellingResource>, j: int)
    requires
        forall|k: int| 0 <= k < states.len() - 1 ==> #[trigger] supply_step(states[k], states[k + 1]),
        0 <= j < states.len(),
        states[0].wf(),
    ensures
        forall|i: int| 0 <= i <= j ==> states[i].supply <= states[j].supply,
        states[j].max_supply == states[0].max_supply,
        states[j].wf(),
    decreases j,
{
    if j > 0 {
        lemma_supply_monotonic(states, j - 1);
        assert(supply_step(states[j - 1], states[(j - 1) + 1]));
    }
}

/// What one successful purchase establishes for the buyer's trade history
/// under the market's per-wallet cap: the contract of `buy` gives, on
/// success, exactly that the cap was not yet reached, that the counter did
/// not saturate, and that it advanced by one.
pub open spec fn history_step(cap: Option<u64>, pre: TradeHistory, post: TradeHistory) -> bool {
    &&& (cap matches Some(p) ==> pre.already_bought < p)
    &&& pre.already_bought < u64::MAX
    &&& post == (TradeHistory { already_bought: (pre.already_bought + 1) as u64, ..pre })
}

/// Over any sequence of successful purchases by one buyer in one market,
/// `already_bought` never exceeds the per-wallet cap when one is set.
pub proof fn lemma_buy_limit(cap: Option<u64>, states: Seq<TradeHistory>, j: int)
    requires
        forall|k: int| 0 <= k < states.len() - 1 ==> #[trigger] history_step(cap, states[k], states[k + 1]),
        0 <= j < states.len(),
        cap matches Some(p) ==> states[0].already_bought <= p,
    ensures
        cap matches Some(p) ==> states[j].already_bought <= p,
    decreases j,
{
    if j > 0 {
        lemma_buy_limit(cap, states, j - 1);
        assert(history_step(cap, states[j - 1], states[(j - 1) + 1]));
    }
}

/// For any (market, funder) pair, at most one withdrawal ever succeeds.
///
/// The first attempt ran with no payout ticket at the derived address and
/// succeeded — its first-failing-check is `None` — and the same atomic
/// step created the ticket, which is never deleted, so any later attempt
/// runs with `ticket_exists` set.  Whatever the later attempt's treasury
/// balance, metadata, destination or snapshot, and at any later time, it
/// fails with exactly the idempotency error.
pub proof fn lemma_withdraw_at_most_once(
    market: Market,
    market_key: Pubkey,
    metadata1: Metadata,
    metadata2: Metadata,
    treasury1: u64,
    treasury2: u64,
    funder: Pubkey,
    dest1: DestinationFacts,
    dest2: DestinationFacts,
    ticket_exists1: bool,
    ticket_exists2: bool,
    pmc1: Option<&PrimaryMetadataCreators>,
    pmc2: Option<&PrimaryMetadataCreators>,
    treasury_owner_bump: u8,
    payout_ticket_key: Pubkey,
    payout_ticket_bump: u8,
    caller: Pubkey,
    now1: u64,
    now2: u64,
)
    requires
        withdraw_error(
            market,
            market_key,
            metadata1,
            treasury1,
            funder,
            dest1,
            ticket_exists1,
            pmc1,
            treasury_owner_bump,
            payout_ticket_key,
            payout_ticket_bump,
            caller,
            now1,
        ) is None,
        ticket_exists2,
        now2 >= now1,
    ensures
        withdraw_error(
            market,
            market_key,
            metadata2,
            treasury2,
            funder,
            dest2,
            ticket_exists2,
            pmc2,
            treasury_owner_bump,
            payout_ticket_key,
            payout_ticket_bump,
            caller,
            now2,
        ) == Some(ErrorCode::PayoutTicketExists),
{
}

/// A market's terms change only strictly before `start_date` and only
/// while `mutable` is set: an attempt at or after `end_date`, or against
/// an immutable market, always fails — and `change_market`'s contract adds
/// that on failure no field changes.
pub proof fn lemma_change_market_gate(
    market: Market,
    caller: Pubkey,
    now: u64,
    new_name: Option<String>,
    new_description: Option<String>,
    new_price: Option<u64>,
)
    ensures
        change_market_error(market, caller, now, new_name, new_description, new_price) is None
            ==> market.mutable && now < market.start_date,
        !market.mutable && caller == market.owner ==> change_market_error(
            market,
            caller,
            now,
            new_name,
            new_description,
            new_price,
        ) == Some(ErrorCode::MarketIsImmutable),
        (market.end_date matches Some(e) && now >= e) ==> change_market_error(
            market,
            caller,
            now,
            new_name,
            new_description,
            new_price,
        ) is Some,
{
}

/// Fixed-width text storage is exact: a stored text of width `width` is
/// the original content followed by exactly `width - len` padding
/// characters, so reading it back recovers the content unchanged.
pub proof fn lemma_padding_exact(s: Seq<char>, width: int)
    requires
        s.len() <= width,
    ensures
        padded(s, width).len() == width,
        padded(s, width).subrange(0, s.len() as int) == s,
        padded(s, width).skip(s.len() as int) == Seq::new((width - s.len()) as nat, |i: int| '\u{0}'),
{
    assert(padded(s, width).subrange(0, s.len() as int) =~= s);
    assert(padded(s, width).skip(s.len() as int) =~= Seq::new(
        (width - s.len()) as nat,
        |i: int| '\u{0}',
    ));
}

} // verus!
