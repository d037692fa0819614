//! Core of a WebAssembly smart-contract module: contract records and
//! tombstones, address and child-trie derivation, the gas meter and cost
//! schedule, the rent engine, restoration from a donor, the call-stack rules
//! and the gas broker that turns gas into fees and refunds.

pub mod hashing;
pub mod contract_info;
pub mod derive;
pub mod error;
pub mod gas;
pub mod schedule;
pub mod rent;
pub mod restore;
pub mod broker;
pub mod exec;
