//! Deterministic storage addresses for the records this program owns.
//!
//! Every sub-record lives at an address derived from a fixed tag and the
//! identities of its parents, together with a one-byte uniqueness proof (the
//! "bump") that callers must echo back.  The derivation itself is performed
//! by the platform's key routine; its result is a pure function of the seeds
//! and the deriving program, which is all the contracts here rely on.

use vstd::prelude::*;

use crate::pubkey::{id, spec_program_id, Pubkey};

verus! {

/// The address and bump that the platform's derivation routine returns for
/// a tag, a list of parent keys and a deriving program — or `None`, when
/// the seeds exceed the platform's limits or, with statistically
/// improbable seeds, no bump works.  The result depends on the three
/// arguments alone.
pub uninterp spec fn program_address_of(
    prefix: Seq<char>,
    keys: Seq<Pubkey>,
    program: Pubkey,
) -> Option<(Pubkey, u8)>;

/// Holds when `(key, bump)` is the canonical derived address for this tag
/// and these parents under this program's own identity.
pub open spec fn is_derived(prefix: Seq<char>, keys: Seq<Pubkey>, key: Pubkey, bump: u8) -> bool {
    program_address_of(prefix, keys, spec_program_id()) == Some((key, bump))
}

/// Relies on `anchor_lang`'s `Pubkey::try_find_program_address` (the
/// platform's seed-derived address search): the returned address and bump
/// depend on the seeds and the program id alone.
#[verifier::external_body]
fn try_derive_address(prefix: &str, keys: &Vec<Pubkey>, program: &Pubkey) -> (r: Option<
    (Pubkey, u8),
>)
    ensures
        r == program_address_of(prefix@, keys@, *program),
{
    let kb: Vec<[u8; 32]> = keys.iter().map(|k| k.to_array()).collect();
    let mut seeds: Vec<&[u8]> = Vec::with_capacity(kb.len() + 1);
    seeds.push(prefix.as_bytes());
    for b in kb.iter() {
        seeds.push(b);
    }
    let pid = anchor_lang::prelude::Pubkey::new_from_array(program.to_array());
    let found = anchor_lang::prelude::Pubkey::try_find_program_address(&seeds, &pid);
    found.map(|(k, bump)| (Pubkey::from_array(k.to_bytes()), bump))
}

/// The address of the vault authority for a resource offered by a store.
pub fn find_vault_owner_address(resource_mint: &Pubkey, store: &Pubkey) -> (r: Option<
    (Pubkey, u8),
>)
    ensures
        r == program_address_of("mt_vault"@, seq![*resource_mint, *store], spec_program_id()),
{
    let keys: Vec<Pubkey> = vec![*resource_mint, *store];
    try_derive_address("mt_vault", &keys, &id())
}

/// The address of the treasury authority for a payment mint and a selling
/// resource.
pub fn find_treasury_owner_address(treasury_mint: &Pubkey, selling_resource: &Pubkey) -> (r: Option<
    (Pubkey, u8),
>)
    ensures
        r == program_address_of(
            "holder"@,
            seq![*treasury_mint, *selling_resource],
            spec_program_id(),
        ),
{
    let keys: Vec<Pubkey> = vec![*treasury_mint, *selling_resource];
    try_derive_address("holder", &keys, &id())
}

/// The address of the primary-creators snapshot for a metadata record.
pub fn find_primary_metadata_creators(metadata: &Pubkey) -> (r: Option<(Pubkey, u8)>)
    ensures
        r == program_address_of("primary_creators"@, seq![*metadata], spec_program_id()),
{
    let keys: Vec<Pubkey> = vec![*metadata];
    proof {
        assert(keys@ =~= seq![*metadata]);
    }
    try_derive_address("primary_creators", &keys, &id())
}

/// The address of a buyer's trade history for a market.
pub fn find_trade_history_address(wallet: &Pubkey, market: &Pubkey) -> (r: Option<(Pubkey, u8)>)
    ensures
        r == program_address_of("history"@, seq![*wallet, *market], spec_program_id()),
{
    let keys: Vec<Pubkey> = vec![*wallet, *market];
    try_derive_address("history", &keys, &id())
}

/// The address of the payout ticket for a market and a funder.
pub fn find_payout_ticket_address(market: &Pubkey, funder: &Pubkey) -> (r: Option<(Pubkey, u8)>)
    ensures
        r == program_address_of("payout_ticket"@, seq![*market, *funder], spec_program_id()),
{
    let keys: Vec<Pubkey> = vec![*market, *funder];
    try_derive_address("payout_ticket", &keys, &id())
}

} // verus!
