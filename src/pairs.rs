use vstd::prelude::*;

verus! {

/// Bounds on the amount of a reverse swap, in satoshis.
#[derive(Debug, Clone, Copy, PartialEq, Eq, Structural)]
pub struct ReverseLimits {
    pub maximal: u64,
    pub minimal: u64,
}

impl ReverseLimits {
    pub fn new(maximal: u64, minimal: u64) -> (r: Self)
        ensures
            r.maximal == maximal,
            r.minimal == minimal,
    {
        ReverseLimits { maximal, minimal }
    }
}

/// Miner fees of a pair, in satoshis: for the lockup and for the claim.
#[derive(Debug, Clone, Copy, PartialEq, Eq, Structural)]
pub struct PairMinerFees {
    pub lockup: u64,
    pub claim: u64,
}

impl PairMinerFees {
    pub fn new(lockup: u64, claim: u64) -> (r: Self)
        ensures
            r.lockup == lockup,
            r.claim == claim,
    {
        PairMinerFees { lockup, claim }
    }
}

/// Bounds on the amount of a submarine swap, in satoshis, and the largest
/// amount the coordinator accepts unconfirmed.
#[derive(Debug, Clone, Copy, PartialEq, Eq, Structural)]
pub struct PairLimits {
    pub maximal: u64,
    pub minimal: u64,
    pub maximal_zero_conf: u64,
}

impl PairLimits {
    pub fn new(maximal: u64, minimal: u64, maximal_zero_conf: u64) -> (r: Self)
        ensures
            r.maximal == maximal,
            r.minimal == minimal,
            r.maximal_zero_conf == maximal_zero_conf,
    {
        PairLimits { maximal, minimal, maximal_zero_conf }
    }
}

/// The coordinator's view of the chain tips.
#[derive(Debug, Clone, Copy, PartialEq, Eq, Structural)]
pub struct HeightResponse {
    pub btc: u32,
    pub lbtc: u32,
}

impl HeightResponse {
    pub fn new(btc: u32, lbtc: u32) -> (r: Self)
        ensures
            r.btc == btc,
            r.lbtc == lbtc,
    {
        HeightResponse { btc, lbtc }
    }
}

} // verus!
