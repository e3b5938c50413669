//! An ownership-gated audit-log ledger.
//!
//! Log entries are stored under a two-part key (log name, log date). Only the
//! owners of a log name may append to it; ownership is extended through a
//! one-at-a-time claim workflow; reads are served page by page in append order.

pub mod account;
pub mod byte_map;
pub mod bytes;
pub mod claims;
pub mod entry;
pub mod error;
pub mod hash_rpc;
pub mod laws;
pub mod model;
pub mod owners;
pub mod pagination;
pub mod pallet;
pub mod rpc;
pub mod store;
