//! The records the marketplace keeps, and the read-only facts about
//! external records that its decisions depend on.

use vstd::prelude::*;

use crate::pubkey::Pubkey;
use crate::utils::{DESCRIPTION_MAX_LEN, NAME_MAX_LEN};

verus! {

/// A named collection of resources under one administrator.  Created once;
/// immutable thereafter.
#[derive(Clone, Debug)]
pub struct Store {
    pub admin: Pubkey,
    pub name: String,
    pub description: String,
}

impl Store {
    /// Names are stored at their fixed width.
    pub open spec fn wf(self) -> bool {
        &&& self.name@.len() == NAME_MAX_LEN
        &&& self.description@.len() == DESCRIPTION_MAX_LEN
    }
}

/// Lifecycle of a selling resource: freshly registered, bound to a market,
/// or sold out.
#[derive(Clone, Copy, PartialEq, Eq, Structural, Debug)]
pub enum SellingResourceState {
    Created,
    InUse,
    Exhausted,
}

/// One mintable resource bound to a store and an escrow vault, with its
/// printed supply and optional ceiling.
#[derive(Clone, Copy, Debug)]
pub struct SellingResource {
    pub store: Pubkey,
    pub owner: Pubkey,
    pub resource: Pubkey,
    pub vault: Pubkey,
    pub vault_owner: Pubkey,
    pub supply: u64,
    pub max_supply: Option<u64>,
    pub state: SellingResourceState,
}

impl SellingResource {
    /// The printed supply never exceeds the ceiling when one is set.
    pub open spec fn wf(self) -> bool {
        self.max_supply matches Some(m) ==> self.supply <= m
    }
}

/// Stored lifecycle marker of a market.  Whether a market is open for
/// purchases is derived from the clock against its window; `Ended` is the
/// explicit closed marker that gates withdrawals of an unbounded market.
#[derive(Clone, Copy, PartialEq, Eq, Structural, Debug)]
pub enum MarketState {
    Created,
    Active,
    Ended,
}

/// The sale terms and time window for one selling resource.
#[derive(Clone, Debug)]
pub struct Market {
    pub store: Pubkey,
    pub selling_resource: Pubkey,
    pub treasury_mint: Pubkey,
    pub treasury_holder: Pubkey,
    pub treasury_owner: Pubkey,
    pub owner: Pubkey,
    pub name: String,
    pub description: String,
    pub mutable: bool,
    pub price: u64,
    pub pieces_in_one_wallet: Option<u64>,
    pub start_date: u64,
    pub end_date: Option<u64>,
    pub state: MarketState,
}

impl Market {
    /// Names at their fixed width; the end of the window, when set, not
    /// before its start.
    pub open spec fn wf(self) -> bool {
        &&& self.name@.len() == NAME_MAX_LEN
        &&& self.description@.len() == DESCRIPTION_MAX_LEN
        &&& (self.end_date matches Some(e) ==> self.start_date <= e)
    }
}

/// Per-(buyer, market) purchase counter, created lazily on first purchase.
#[derive(Clone, Copy, Debug)]
pub struct TradeHistory {
    pub market: Pubkey,
    pub wallet: Pubkey,
    pub already_bought: u64,
}

/// One royalty recipient: an identity and its percentage share of the
/// proceeds.
#[derive(Clone, Copy, PartialEq, Eq, Structural, Debug)]
pub struct Creator {
    pub address: Pubkey,
    pub verified: bool,
    pub share: u8,
}

/// The snapshot of royalty recipients captured before the first sale;
/// written once and never recomputed.
#[derive(Clone, Debug)]
pub struct PrimaryMetadataCreators {
    pub creators: Vec<Creator>,
}

/// Proof that one funder has been paid for one market.  Its existence at
/// the derived (market, funder) address is what makes a second withdrawal
/// fail; it is never deleted.
#[derive(Clone, Copy, PartialEq, Eq, Structural, Debug)]
pub struct PayoutTicket {
    pub market: Pubkey,
    pub funder: Pubkey,
}

/// The facts this program reads from a resource's metadata record, which an
/// external program owns.
#[derive(Clone, Debug)]
pub struct Metadata {
    pub update_authority: Pubkey,
    pub is_mutable: bool,
    pub primary_sale_happened: bool,
    pub creators: Option<Vec<Creator>>,
}

/// The facts this program reads from a resource's master-edition record:
/// how many copies exist and how many it can still produce.
#[derive(Clone, Copy, Debug)]
pub struct MasterEdition {
    pub supply: u64,
    pub max_supply: Option<u64>,
}

impl MasterEdition {
    /// The edition count never exceeds the ceiling when one is set.
    pub open spec fn wf(self) -> bool {
        self.max_supply matches Some(m) ==> self.supply <= m
    }
}

} // verus!
