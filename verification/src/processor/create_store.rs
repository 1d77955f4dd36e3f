//! Registering a store: a named collection of resources under one
//! administrator.

use vstd::prelude::*;

use crate::error::ErrorCode;
use crate::pubkey::Pubkey;
use crate::state::Store;
use crate::utils::{padded, puffed_out_string, DESCRIPTION_MAX_LEN, NAME_MAX_LEN};

verus! {

/// The first check that fails for these inputs, if any: over-long texts are
/// rejected rather than truncated.
pub open spec fn create_store_error(name: Seq<char>, description: Seq<char>) -> Option<ErrorCode> {
    if name.len() > NAME_MAX_LEN {
        Some(ErrorCode::NameIsTooLong)
    } else if description.len() > DESCRIPTION_MAX_LEN {
        Some(ErrorCode::DescriptionIsTooLong)
    } else {
        None
    }
}

/// Allocates a new store owned by the caller, with its name and description
/// right-padded to their fixed widths so the stored size never depends on
/// the input length.
pub fn create_store(admin: Pubkey, name: &str, description: &str) -> (r: Result<Store, ErrorCode>)
    ensures
        match r {
            Ok(store) => {
                &&& create_store_error(name@, description@) is None
                &&& store.admin == admin
                &&& store.name@ == padded(name@, NAME_MAX_LEN as int)
                &&& store.description@ == padded(description@, DESCRIPTION_MAX_LEN as int)
                &&& store.wf()
            },
            Err(e) => create_store_error(name@, description@) == Some(e),
        },
{
    if name.unicode_len() > NAME_MAX_LEN {
        return Err(ErrorCode::NameIsTooLong);
    }
    if description.unicode_len() > DESCRIPTION_MAX_LEN {
        return Err(ErrorCode::DescriptionIsTooLong);
    }
    Ok(
        Store {
            admin,
            name: puffed_out_string(name, NAME_MAX_LEN),
            description: puffed_out_string(description, DESCRIPTION_MAX_LEN),
        },
    )
}

} // verus!
