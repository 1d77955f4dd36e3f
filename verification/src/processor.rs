//! The marketplace operations, one module each.
//!
//! Every operation is a total function over the records the platform
//! resolved, the caller's verified identity and the clock value at the
//! instant the operation runs.  It returns either the full effect — updated
//! records and the transfers the platform must perform in the same atomic
//! step — or one specific error, with every record left unchanged.

pub mod buy;
pub mod change_market;
pub mod claim_resource;
pub mod close_market;
pub mod create_market;
pub mod create_store;
pub mod init_selling_resource;
pub mod save_primary_metadata_creators;
pub mod withdraw;
