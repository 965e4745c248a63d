//! The decision logic of a Lightning node's channel policy agent and of its
//! network radar, with the contracts that it keeps.
pub mod agent;
pub mod balance;
pub mod cache;
pub mod choice;
pub mod config;
pub mod encoding;
pub mod forwards;
pub mod graph;
pub mod hashing;
pub mod inquiry;
pub mod lnd;
pub mod network;
pub mod policy;
pub mod probe;
pub mod radar;
pub mod report;
pub mod storage;
pub mod text;
pub mod time;
