//! A permissionless digital-goods marketplace: sellers register a
//! limited-edition resource, open a time-boxed market against it, buyers
//! exchange payment for a freshly minted copy, and accumulated proceeds are
//! distributed to royalty recipients exactly once each.
//!
//! Every operation is a single atomic step: it validates its inputs, and
//! either returns the full effect on the records it touches or a specific
//! error with no effect at all.  The storage platform that persists the
//! records, verifies signers and executes one operation at a time is out of
//! scope; operations take the records and clock value the platform resolved
//! and hand back the updated records and the transfers to perform.

pub mod error;
pub mod laws;
pub mod pda;
pub mod processor;
pub mod pubkey;
pub mod state;
pub mod utils;

pub use error::ErrorCode;
pub use pubkey::Pubkey;
