//! Bulk deletion of one author's messages in a channel: the decisions of the
//! fetch, filter and delete pipeline, with the network left to the caller.

pub mod message;
pub mod filter;
pub mod paginate;
pub mod deletion;
pub mod config;
