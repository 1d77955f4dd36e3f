//! Capturing the royalty snapshot: the list of primary-sale recipients and
//! their shares, written once before the first sale.

use vstd::prelude::*;

use crate::error::ErrorCode;
use crate::pda::{find_primary_metadata_creators, is_derived};
use crate::pubkey::Pubkey;
use crate::state::{Creator, Metadata, PrimaryMetadataCreators};

verus! {

/// The most recipients one snapshot can hold.
pub const MAX_PRIMARY_CREATORS_LEN: usize = 5;

/// The first check that fails for these inputs, if any: the echoed
/// derivation, the caller being the metadata's update authority, the
/// metadata still being mutable, and the list being non-empty and within
/// capacity.
pub open spec fn save_primary_metadata_creators_error(
    metadata: Metadata,
    metadata_key: Pubkey,
    caller: Pubkey,
    creators: Seq<Creator>,
    primary_metadata_creators_key: Pubkey,
    primary_metadata_creators_bump: u8,
) -> Option<ErrorCode> {
    if !is_derived(
        "primary_creators"@,
        seq![metadata_key],
        primary_metadata_creators_key,
        primary_metadata_creators_bump,
    ) {
        Some(ErrorCode::DerivedKeyInvalid)
    } else if caller != metadata.update_authority {
        Some(ErrorCode::PublicKeyMismatch)
    } else if !metadata.is_mutable {
        Some(ErrorCode::MetadataShouldBeMutable)
    } else if creators.len() == 0 {
        Some(ErrorCode::CreatorsIsEmpty)
    } else if creators.len() > MAX_PRIMARY_CREATORS_LEN {
        Some(ErrorCode::CreatorsIsGtThanAvailable)
    } else {
        None
    }
}

/// Stores the snapshot verbatim at the derived address; it is never
/// recomputed, and the platform's create-if-absent semantics reject a
/// second write to the same record.
pub fn save_primary_metadata_creators(
    metadata: &Metadata,
    metadata_key: Pubkey,
    caller: Pubkey,
    creators: Vec<Creator>,
    primary_metadata_creators_key: Pubkey,
    primary_metadata_creators_bump: u8,
) -> (r: Result<PrimaryMetadataCreators, ErrorCode>)
    ensures
        match r {
            Ok(pmc) => {
                &&& save_primary_metadata_creators_error(
                    *metadata,
                    metadata_key,
                    caller,
                    creators@,
                    primary_metadata_creators_key,
                    primary_metadata_creators_bump,
                ) is None
                &&& pmc.creators@ == creators@
            },
            Err(e) => save_primary_metadata_creators_error(
                *metadata,
                metadata_key,
                caller,
                creators@,
                primary_metadata_creators_key,
                primary_metadata_creators_bump,
            ) == Some(e),
        },
{
    let derived = find_primary_metadata_creators(&metadata_key);
    let echo_ok: bool = match derived {
        Some((k, b)) => k == primary_metadata_creators_key && b == primary_metadata_creators_bump,
        None => false,
    };
    if !echo_ok {
        return Err(ErrorCode::DerivedKeyInvalid);
    }
    if caller != metadata.update_authority {
        return Err(ErrorCode::PublicKeyMismatch);
    }
    if !metadata.is_mutable {
        return Err(ErrorCode::MetadataShouldBeMutable);
    }
    if creators.len() == 0 {
        return Err(ErrorCode::CreatorsIsEmpty);
    }
    if creators.len() > MAX_PRIMARY_CREATORS_LEN {
        return Err(ErrorCode::CreatorsIsGtThanAvailable);
    }
    Ok(PrimaryMetadataCreators { creators })
}

} // verus!
