//! The decision logic of an ORE miner: what to hash, when to stop, what to pay, what to send.
//!
//! Nothing here talks to the network, reads a clock or starts a thread. A driver does that, hands
//! the outcome to one of the functions below and performs the action that it gets back.

pub mod bus_laws;
pub mod buses;
pub mod bytes;
pub mod chain;
pub mod encoding_laws;
pub mod epoch;
pub mod fee_laws;
pub mod fees;
pub mod float64;
pub mod host;
pub mod interleaving_laws;
pub mod json;
pub mod miner;
pub mod mining;
pub mod mining_laws;
pub mod prices;
pub mod round_laws;
pub mod search;
pub mod search_laws;
pub mod sending;
pub mod sending_laws;
pub mod shared_best_laws;
pub mod submission;
pub mod submission_laws;
pub mod text;
pub mod worker_laws;
