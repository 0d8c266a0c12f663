//! The launch rules (fixed parameters) and the two persisted records:
//! the global configuration and the per-participant grant/claim record.
//!
//! All monetary amounts are integers in 6-decimal fixed point: one token
//! unit is 1_000_000.

use vstd::prelude::*;

verus! {

/// Fewest participants for which a fair launch is intended.
pub const MIN_PLAYERS: u64 = 15_000;

/// Hard cap on the number of participants.
pub const MAX_PLAYERS: u64 = 50_000;

/// Registrations below this count use the boot-phase fee split.
pub const BOOT_THRESHOLD: u64 = 1_500;

/// Registrations below this count receive the early-bird bonus.
pub const BONUS_THRESHOLD: u64 = 10_000;

/// Most that may ever accumulate in the liquidity fund (1M fee-token units).
pub const LP_CAP_USDT: u64 = 1_000_000 * 1_000_000;

/// The flat registration fee (100 fee-token units).
pub const REGISTRATION_FEE: u64 = 100 * 1_000_000;

/// The base grant of every participant (20k grant-token units).
pub const BSLR_ALLOCATION: u64 = 20_000 * 1_000_000;

/// The early-bird bonus added to the base grant (5k grant-token units).
pub const BSLR_BONUS: u64 = 5_000 * 1_000_000;

/// The single global program record: fixed identities, the registration
/// window, the vesting timestamps, and the running fund accumulators.
///
/// Identities are the opaque account identifiers of the external ledger
/// service; the core only stores and compares them.
#[derive(Clone, Copy, Debug, PartialEq, Eq, Structural)]
pub struct Config {
    /// The identity authorized for administrative operations.
    pub admin: u64,
    /// Destination of the prize-pool share of each fee.
    pub prize_pool_wallet: u64,
    /// Destination of the liquidity share of each fee.
    pub lp_wallet: u64,
    /// Destination of the operations share of each fee.
    pub ops_wallet: u64,
    /// Token type in which fees are paid.
    pub usdt_mint: u64,
    /// Token type in which grants are released.
    pub bslr_mint: u64,
    /// How many registrations have committed.
    pub total_players: u64,
    /// Whether registrations are still accepted. Starts true and is flipped
    /// to false at most once, never back.
    pub registrations_open: bool,
    /// Unlock timestamp of the mid tranche; 0 until set by the admin.
    pub t_mid: i64,
    /// Unlock timestamp of the final tranche; 0 until set by the admin.
    pub t_end: i64,
    /// Total ever routed to the prize pool.
    pub total_prize_usdt: u64,
    /// Total ever routed to the liquidity fund; never exceeds the cap.
    pub total_lp_usdt: u64,
}

impl Config {
    /// The configuration invariant: the participant count respects the hard
    /// cap, the liquidity accumulator respects the liquidity cap, and the
    /// vesting timestamps are either still unset (both at the 0 sentinel) or
    /// strictly ordered.
    pub open spec fn wf(self) -> bool {
        &&& self.total_players <= MAX_PLAYERS
        &&& self.total_lp_usdt <= LP_CAP_USDT
        &&& (self.t_mid == 0 && self.t_end == 0) || self.t_mid < self.t_end
    }
}

/// The per-participant record, created on the identity's first and only
/// registration and never destroyed.
#[derive(Clone, Copy, Debug, PartialEq, Eq, Structural)]
pub struct PlayerData {
    /// The owning identity.
    pub wallet: u64,
    /// The participant's total grant, fixed at registration.
    pub bslr_allocated: u64,
    /// Whether the early-bird bonus is part of the grant.
    pub bonus_applied: bool,
    /// Whether the initial tranche (one quarter) was released.
    pub claim_initial: bool,
    /// Whether the mid tranche (one quarter) was released.
    pub claim_mid: bool,
    /// Whether the final tranche (one half) was released.
    pub claim_final: bool,
}

impl PlayerData {
    /// The participant invariant: the grant is the base allocation, with the
    /// bonus added exactly when the bonus was applied.
    pub open spec fn wf(self) -> bool {
        self.bslr_allocated == if self.bonus_applied {
            (BSLR_ALLOCATION + BSLR_BONUS) as u64
        } else {
            BSLR_ALLOCATION
        }
    }

    /// Total grant tokens released to this participant so far: a quarter per
    /// claimed quarter tranche and half for the claimed final tranche.
    pub open spec fn released(self) -> int {
        (if self.claim_initial {
            self.bslr_allocated / 4
        } else {
            0
        }) + (if self.claim_mid {
            self.bslr_allocated / 4
        } else {
            0
        }) + (if self.claim_final {
            self.bslr_allocated / 2
        } else {
            0
        })
    }
}

/// Saturating addition: the mathematical sum, clamped at the top of `u64`.
/// The fund accumulators use this so that they can never wrap.
pub open spec fn sat_add(a: u64, b: u64) -> u64 {
    if a + b > u64::MAX {
        u64::MAX
    } else {
        (a + b) as u64
    }
}

} // verus!
