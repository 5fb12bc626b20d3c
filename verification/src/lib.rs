//! Verified core of an Ethereum analysis backend: beacon chain slot arithmetic,
//! Gwei amounts, and the hashing and response decisions of the cached API.

pub mod decimal;
pub mod time;
pub mod beacon_chain;
pub mod eth_units;
pub mod execution_chain;
pub mod serve;
