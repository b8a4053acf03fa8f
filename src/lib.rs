//! A versioned, multi-indexed store of encrypted content: the index keys,
//! the access-control fan-out, the version resolver, the time-range index
//! and the read-side query rules, all independent of the ledger that stores
//! revisions and links.

pub mod acl;
pub mod content;
pub mod error;
pub mod indexing;
pub mod keys;
pub mod query;
pub mod resolver;
pub mod revisions;
pub mod time_index;
