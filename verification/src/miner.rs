//! What a miner is set up with.

use vstd::prelude::*;

verus! {

/// A miner: who signs and who pays, and how priority fees are found.
pub struct Miner {
    /// The address that signs and mines.
    pub signer: [u8; 32],
    /// The address that pays for transactions.
    pub fee_payer: [u8; 32],
    /// The priority fee where it is not found dynamically.
    pub priority_fee: Option<u64>,
    /// Is the priority fee of a mining round asked from a service?
    pub dynamic_fee: bool,
    /// The address of that service.
    pub dynamic_fee_url: Option<String>,
    /// The most that a dynamic fee may be.
    pub dynamic_fee_max: Option<u64>,
    /// The way of estimating fees while a transaction is being sent, if there is one.
    pub dynamic_fee_strategy: Option<String>,
}

/// The smaller of a fee and the most that it may be.
pub open spec fn capped(fee: u64, max: Option<u64>) -> u64 {
    match max {
        Some(max_fee) => if fee <= max_fee {
            fee
        } else {
            max_fee
        },
        None => fee,
    }
}

/// `value`, or zero where there is none.
pub open spec fn or_zero(value: Option<u64>) -> u64 {
    match value {
        Some(v) => v,
        None => 0,
    }
}

impl Miner {
    /// Cuts a dynamic fee down to the most that it may be.
    pub fn cap_fee(&self, fee: u64) -> (r: u64)
        ensures
            r == capped(fee, self.dynamic_fee_max),
            self.dynamic_fee_max is Some ==> r <= self.dynamic_fee_max->0,
            r <= fee,
    {
        match self.dynamic_fee_max {
            Some(max_fee) => if fee <= max_fee {
                fee
            } else {
                max_fee
            },
            None => fee,
        }
    }

    /// The fee that is set, or zero.
    pub fn static_fee(&self) -> (r: u64)
        ensures
            r == or_zero(self.priority_fee),
    {
        match self.priority_fee {
            Some(fee) => fee,
            None => 0,
        }
    }
}

} // verus!
