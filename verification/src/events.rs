//! The structured notifications that successful operations emit. They are
//! observational only: the core returns them to the caller, which may log or
//! publish them, and never reads them back.

use vstd::prelude::*;

use crate::vesting::Tranche;

verus! {

/// Emitted by each successful registration.
#[derive(Clone, Copy, Debug, PartialEq, Eq, Structural)]
pub struct RegisterEvent {
    /// The registering identity.
    pub player: u64,
    /// The participant's total grant.
    pub bslr_allocated: u64,
    /// Whether the early-bird bonus is in the grant.
    pub bonus_applied: bool,
}

/// Emitted by each successful tranche claim.
#[derive(Clone, Copy, Debug, PartialEq, Eq, Structural)]
pub struct ClaimEvent {
    /// The claiming identity.
    pub player: u64,
    /// The amount released by the claim.
    pub amount: u64,
    /// Which tranche was claimed.
    pub claim_type: Tranche,
}

/// Emitted by a successful fair launch.
#[derive(Clone, Copy, Debug, PartialEq, Eq, Structural)]
pub struct LaunchFairEvent {
    /// The participant count at launch.
    pub total_players: u64,
    /// The prize accumulator at launch.
    pub total_prize_usdt: u64,
}

} // verus!
