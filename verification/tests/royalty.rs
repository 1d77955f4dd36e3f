//! The royalty ledger: the creators snapshot, the idempotent withdrawal,
//! and reclaiming the escrowed resource.

use nft_shop::pda::{
    find_payout_ticket_address, find_primary_metadata_creators, find_treasury_owner_address,
    find_vault_owner_address,
};
use nft_shop::processor::buy::{buy, BuyerFacts};
use nft_shop::processor::claim_resource::claim_resource;
use nft_shop::processor::close_market::close_market;
use nft_shop::processor::create_market::{create_market, TreasuryFacts};
use nft_shop::processor::create_store::create_store;
use nft_shop::processor::init_selling_resource::init_selling_resource;
use nft_shop::processor::save_primary_metadata_creators::save_primary_metadata_creators;
use nft_shop::processor::withdraw::{withdraw, DestinationFacts};
use nft_shop::pubkey::system_program_id;
use nft_shop::state::{
    Creator, Market, MasterEdition, Metadata, PrimaryMetadataCreators, SellingResource,
    TradeHistory,
};
use nft_shop::ErrorCode;
use nft_shop::Pubkey;

fn pk(n: u64) -> Pubkey {
    Pubkey { w0: n, w1: 0, w2: 0, w3: 0 }
}

const ADMIN: u64 = 1;
const OWNER: u64 = 2;
const RESOURCE_MINT: u64 = 3;
const VAULT: u64 = 4;
const STORE_KEY: u64 = 5;
const SR_KEY: u64 = 6;
const MARKET_KEY: u64 = 7;
const BUYER: u64 = 8;
const FUNDER: u64 = 9;
const METADATA_KEY: u64 = 11;
const PRICE: u64 = 2_000_000_000;

fn creator(address: Pubkey, share: u8) -> Creator {
    Creator { address, verified: false, share }
}

fn metadata(primary_sale_happened: bool) -> Metadata {
    Metadata {
        update_authority: pk(OWNER),
        is_mutable: true,
        primary_sale_happened,
        creators: Some(vec![creator(pk(FUNDER), 100)]),
    }
}

/// A native-asset market of unlimited duration over a two-copy resource,
/// with one purchase already made: the treasury holds one price.
fn setup_sold_market() -> (Market, SellingResource) {
    let store = create_store(pk(ADMIN), "store", "a store").unwrap();
    let (vault_owner, bump) = find_vault_owner_address(&pk(RESOURCE_MINT), &pk(STORE_KEY)).unwrap();
    let mut sr = init_selling_resource(
        &store,
        pk(STORE_KEY),
        pk(ADMIN),
        pk(OWNER),
        pk(RESOURCE_MINT),
        pk(VAULT),
        vault_owner,
        bump,
        &MasterEdition { supply: 0, max_supply: Some(2) },
        Some(2),
    )
    .unwrap();
    let (treasury_owner, _) =
        find_treasury_owner_address(&system_program_id(), &pk(SR_KEY)).unwrap();
    let treasury = TreasuryFacts {
        mint: system_program_id(),
        holder: treasury_owner,
        owner: treasury_owner,
        mint_owned_by_token_program: false,
        holder_owned_by_token_program: false,
        holder_mint: pk(0),
        holder_authority: pk(0),
    };
    let mut market = create_market(
        &mut sr,
        pk(SR_KEY),
        pk(STORE_KEY),
        pk(OWNER),
        &treasury,
        "1234_1234_",
        "1234_1234_1234_1234_",
        true,
        PRICE,
        Some(1),
        1000,
        None,
        1000,
    )
    .unwrap()
    .market;
    let mut th = TradeHistory { market: pk(MARKET_KEY), wallet: pk(BUYER), already_bought: 0 };
    let facts = BuyerFacts { wallet: pk(BUYER), token_account: pk(BUYER), token_account_owner: pk(BUYER) };
    buy(&mut market, &mut sr, &mut th, &facts, vault_owner, bump, 1000).unwrap();
    (market, sr)
}

fn snapshot() -> PrimaryMetadataCreators {
    PrimaryMetadataCreators { creators: vec![creator(pk(FUNDER), 100)] }
}

fn run_withdraw(
    market: &Market,
    metadata: &Metadata,
    treasury_amount: u64,
    funder: Pubkey,
    ticket_exists: bool,
    snapshot: Option<&PrimaryMetadataCreators>,
    caller: Pubkey,
    now: u64,
) -> Result<nft_shop::processor::withdraw::WithdrawEffect, ErrorCode> {
    let (_, treasury_owner_bump) =
        find_treasury_owner_address(&market.treasury_mint, &market.selling_resource).unwrap();
    let (ticket_key, ticket_bump) = find_payout_ticket_address(&pk(MARKET_KEY), &funder).unwrap();
    let dest = DestinationFacts { destination: funder, owner: funder, mint: market.treasury_mint };
    withdraw(
        market,
        pk(MARKET_KEY),
        metadata,
        treasury_amount,
        funder,
        &dest,
        ticket_exists,
        snapshot,
        treasury_owner_bump,
        ticket_key,
        ticket_bump,
        caller,
        now,
    )
}

#[test]
fn save_primary_metadata_creators_success() {
    let md = metadata(false);
    let (key, bump) = find_primary_metadata_creators(&pk(METADATA_KEY)).unwrap();
    let creators = vec![creator(pk(FUNDER), 60), creator(pk(FUNDER + 1), 40)];
    let pmc = save_primary_metadata_creators(
        &md,
        pk(METADATA_KEY),
        pk(OWNER),
        creators.clone(),
        key,
        bump,
    )
    .unwrap();
    assert_eq!(pmc.creators, creators);
}

#[test]
fn failure_metadata_creators_is_gt_than_available() {
    let md = metadata(false);
    let (key, bump) = find_primary_metadata_creators(&pk(METADATA_KEY)).unwrap();
    let creators: Vec<Creator> = (0..6).map(|i| creator(pk(20 + i), 10)).collect();
    let r = save_primary_metadata_creators(&md, pk(METADATA_KEY), pk(OWNER), creators, key, bump);
    assert_eq!(r.unwrap_err(), ErrorCode::CreatorsIsGtThanAvailable);
}

#[test]
fn failure_metadata_creators_is_empty() {
    let md = metadata(false);
    let (key, bump) = find_primary_metadata_creators(&pk(METADATA_KEY)).unwrap();
    let r = save_primary_metadata_creators(&md, pk(METADATA_KEY), pk(OWNER), vec![], key, bump);
    assert_eq!(r.unwrap_err(), ErrorCode::CreatorsIsEmpty);
}

#[test]
fn failure_metadata_is_immutable() {
    let mut md = metadata(false);
    md.is_mutable = false;
    let (key, bump) = find_primary_metadata_creators(&pk(METADATA_KEY)).unwrap();
    let creators = vec![creator(pk(FUNDER), 100)];
    let r = save_primary_metadata_creators(&md, pk(METADATA_KEY), pk(OWNER), creators, key, bump);
    assert_eq!(r.unwrap_err(), ErrorCode::MetadataShouldBeMutable);
}

#[test]
fn failure_save_creators_wrong_update_authority() {
    let md = metadata(false);
    let (key, bump) = find_primary_metadata_creators(&pk(METADATA_KEY)).unwrap();
    let creators = vec![creator(pk(FUNDER), 100)];
    let r = save_primary_metadata_creators(&md, pk(METADATA_KEY), pk(99), creators, key, bump);
    assert_eq!(r.unwrap_err(), ErrorCode::PublicKeyMismatch);
}

#[test]
fn withdraw_success() {
    // After a sale and a close, the funder is paid its full share once; a
    // second attempt fails on the ticket the first one created.
    let (mut market, _sr) = setup_sold_market();
    close_market(&mut market, pk(OWNER)).unwrap();
    let md = metadata(false);
    let pmc = snapshot();
    let eff = run_withdraw(&market, &md, PRICE, pk(FUNDER), false, Some(&pmc), pk(OWNER), 1500)
        .unwrap();
    // A 100% share of the whole treasury balance.
    assert_eq!(eff.amount, PRICE);
    assert_eq!(eff.ticket.market, pk(MARKET_KEY));
    assert_eq!(eff.ticket.funder, pk(FUNDER));

    let r = run_withdraw(&market, &md, 0, pk(FUNDER), true, Some(&pmc), pk(OWNER), 1600);
    assert_eq!(r.unwrap_err(), ErrorCode::PayoutTicketExists);
}

#[test]
fn failure_withdraw_twice() {
    let (mut market, _sr) = setup_sold_market();
    close_market(&mut market, pk(OWNER)).unwrap();
    let md = metadata(false);
    let pmc = snapshot();
    assert!(run_withdraw(&market, &md, PRICE, pk(FUNDER), false, Some(&pmc), pk(OWNER), 1500)
        .is_ok());
    let r = run_withdraw(&market, &md, PRICE, pk(FUNDER), true, Some(&pmc), pk(OWNER), 1500);
    assert_eq!(r.unwrap_err(), ErrorCode::PayoutTicketExists);
}

#[test]
fn withdraw_share_is_proportional() {
    let (mut market, _sr) = setup_sold_market();
    close_market(&mut market, pk(OWNER)).unwrap();
    let md = metadata(false);
    let pmc = PrimaryMetadataCreators {
        creators: vec![creator(pk(FUNDER), 37), creator(pk(FUNDER + 1), 63)],
    };
    let eff = run_withdraw(&market, &md, 1000, pk(FUNDER), false, Some(&pmc), pk(OWNER), 1500)
        .unwrap();
    // 37% of 1000, rounded down.
    assert_eq!(eff.amount, 370);
    let eff = run_withdraw(&market, &md, 999, pk(FUNDER + 1), false, Some(&pmc), pk(OWNER), 1500)
        .unwrap();
    // 63% of 999 = 629.37, rounded down.
    assert_eq!(eff.amount, 629);
}

#[test]
fn withdraw_secondary_uses_metadata_creators() {
    let (mut market, _sr) = setup_sold_market();
    close_market(&mut market, pk(OWNER)).unwrap();
    // After the primary sale the shares come from the resource's standard
    // creator metadata; no snapshot is needed.
    let md = metadata(true);
    let eff = run_withdraw(&market, &md, 500, pk(FUNDER), false, None, pk(OWNER), 1500).unwrap();
    assert_eq!(eff.amount, 500);
}

#[test]
fn failure_withdraw_primary_creators_not_provided() {
    let (mut market, _sr) = setup_sold_market();
    close_market(&mut market, pk(OWNER)).unwrap();
    let md = metadata(false);
    let r = run_withdraw(&market, &md, PRICE, pk(FUNDER), false, None, pk(OWNER), 1500);
    assert_eq!(r.unwrap_err(), ErrorCode::PrimaryMetadataCreatorsNotProvided);
}

#[test]
fn failure_withdraw_funder_is_invalid() {
    let (mut market, _sr) = setup_sold_market();
    close_market(&mut market, pk(OWNER)).unwrap();
    let md = metadata(false);
    let pmc = snapshot();
    let r = run_withdraw(&market, &md, PRICE, pk(99), false, Some(&pmc), pk(OWNER), 1500);
    assert_eq!(r.unwrap_err(), ErrorCode::FunderIsInvalid);
}

#[test]
fn failure_withdraw_before_market_ends() {
    let (market, _sr) = setup_sold_market();
    // The market has unlimited duration and was never closed.
    let md = metadata(false);
    let pmc = snapshot();
    let r = run_withdraw(&market, &md, PRICE, pk(FUNDER), false, Some(&pmc), pk(OWNER), 1500);
    assert_eq!(r.unwrap_err(), ErrorCode::MarketInInvalidState);
}

#[test]
fn failure_withdraw_wrong_caller() {
    let (mut market, _sr) = setup_sold_market();
    close_market(&mut market, pk(OWNER)).unwrap();
    let md = metadata(false);
    let pmc = snapshot();
    let r = run_withdraw(&market, &md, PRICE, pk(FUNDER), false, Some(&pmc), pk(99), 1500);
    assert_eq!(r.unwrap_err(), ErrorCode::SellingResourceOwnerInvalid);
}

#[test]
fn failure_withdraw_invalid_destination() {
    let (mut market, _sr) = setup_sold_market();
    close_market(&mut market, pk(OWNER)).unwrap();
    let md = metadata(false);
    let pmc = snapshot();
    let (_, treasury_owner_bump) =
        find_treasury_owner_address(&market.treasury_mint, &market.selling_resource).unwrap();
    let (ticket_key, ticket_bump) =
        find_payout_ticket_address(&pk(MARKET_KEY), &pk(FUNDER)).unwrap();
    // For a native treasury the destination must be the funder itself.
    let dest = DestinationFacts { destination: pk(77), owner: pk(77), mint: market.treasury_mint };
    let r = withdraw(
        &market,
        pk(MARKET_KEY),
        &md,
        PRICE,
        pk(FUNDER),
        &dest,
        false,
        Some(&pmc),
        treasury_owner_bump,
        ticket_key,
        ticket_bump,
        pk(OWNER),
        1500,
    );
    assert_eq!(r.unwrap_err(), ErrorCode::InvalidFunderDestination);
}

#[test]
fn failure_withdraw_amount_overflows() {
    let (mut market, _sr) = setup_sold_market();
    close_market(&mut market, pk(OWNER)).unwrap();
    let md = metadata(false);
    let pmc = PrimaryMetadataCreators { creators: vec![creator(pk(FUNDER), 255)] };
    // 255% of the largest possible balance does not fit the counter.
    let r = run_withdraw(&market, &md, u64::MAX, pk(FUNDER), false, Some(&pmc), pk(OWNER), 1500);
    assert_eq!(r.unwrap_err(), ErrorCode::MathOverflow);
}

#[test]
fn claim_resource_success() {
    let (mut market, sr) = setup_sold_market();
    close_market(&mut market, pk(OWNER)).unwrap();
    let (_, bump) = find_vault_owner_address(&sr.resource, &sr.store).unwrap();
    let eff = claim_resource(&market, &sr, pk(OWNER), 0, pk(40), bump, 1500).unwrap();
    assert_eq!(eff.vault, sr.vault);
    assert_eq!(eff.destination, pk(40));
}

#[test]
fn failure_claim_resource_treasury_is_not_empty() {
    let (mut market, sr) = setup_sold_market();
    close_market(&mut market, pk(OWNER)).unwrap();
    let (_, bump) = find_vault_owner_address(&sr.resource, &sr.store).unwrap();
    let r = claim_resource(&market, &sr, pk(OWNER), PRICE, pk(40), bump, 1500);
    assert_eq!(r.unwrap_err(), ErrorCode::TreasuryIsNotEmpty);
}

#[test]
fn failure_claim_resource_wrong_owner() {
    let (mut market, sr) = setup_sold_market();
    close_market(&mut market, pk(OWNER)).unwrap();
    let (_, bump) = find_vault_owner_address(&sr.resource, &sr.store).unwrap();
    let r = claim_resource(&market, &sr, pk(99), 0, pk(40), bump, 1500);
    assert_eq!(r.unwrap_err(), ErrorCode::SellingResourceOwnerInvalid);
}

#[test]
fn failure_claim_resource_before_market_ends() {
    let (market, sr) = setup_sold_market();
    let (_, bump) = find_vault_owner_address(&sr.resource, &sr.store).unwrap();
    let r = claim_resource(&market, &sr, pk(OWNER), 0, pk(40), bump, 1500);
    assert_eq!(r.unwrap_err(), ErrorCode::MarketInInvalidState);
}

#[test]
fn withdraw_full_balance_at_full_share() {
    // The largest possible balance at a 100% share is paid out exactly,
    // with no overflow.
    let (mut market, _sr) = setup_sold_market();
    close_market(&mut market, pk(OWNER)).unwrap();
    let md = metadata(false);
    let pmc = snapshot();
    let eff = run_withdraw(&market, &md, u64::MAX, pk(FUNDER), false, Some(&pmc), pk(OWNER), 1500)
        .unwrap();
    assert_eq!(eff.amount, u64::MAX);
}

#[test]
fn withdraw_after_end_date_needs_no_close() {
    // A market with an end date ends by the clock alone.
    let store = create_store(pk(ADMIN), "store", "a store").unwrap();
    let (vault_owner, bump) = find_vault_owner_address(&pk(RESOURCE_MINT), &pk(STORE_KEY)).unwrap();
    let mut sr = init_selling_resource(
        &store,
        pk(STORE_KEY),
        pk(ADMIN),
        pk(OWNER),
        pk(RESOURCE_MINT),
        pk(VAULT),
        vault_owner,
        bump,
        &MasterEdition { supply: 0, max_supply: Some(2) },
        Some(2),
    )
    .unwrap();
    let (treasury_owner, _) =
        find_treasury_owner_address(&system_program_id(), &pk(SR_KEY)).unwrap();
    let treasury = TreasuryFacts {
        mint: system_program_id(),
        holder: treasury_owner,
        owner: treasury_owner,
        mint_owned_by_token_program: false,
        holder_owned_by_token_program: false,
        holder_mint: pk(0),
        holder_authority: pk(0),
    };
    let market = create_market(
        &mut sr,
        pk(SR_KEY),
        pk(STORE_KEY),
        pk(OWNER),
        &treasury,
        "1234_1234_",
        "1234_1234_1234_1234_",
        true,
        PRICE,
        None,
        1000,
        Some(1200),
        1000,
    )
    .unwrap()
    .market;
    let md = metadata(false);
    let pmc = snapshot();
    let r = run_withdraw(&market, &md, PRICE, pk(FUNDER), false, Some(&pmc), pk(OWNER), 1100);
    assert_eq!(r.unwrap_err(), ErrorCode::MarketInInvalidState);
    let eff = run_withdraw(&market, &md, PRICE, pk(FUNDER), false, Some(&pmc), pk(OWNER), 1200)
        .unwrap();
    assert_eq!(eff.amount, PRICE);
}
