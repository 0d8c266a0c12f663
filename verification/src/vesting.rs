//! The vesting engine: a pure function of a participant record, the
//! configuration and the current time that either yields the tranche's
//! transfer amount together with the updated record, or a rejection.
//!
//! Two tranches are claimable here, each independently and each at most
//! once: the mid tranche (a quarter of the grant, unlocked at `t_mid`) and
//! the final tranche (half of the grant, unlocked at `t_end`). The initial
//! quarter is released by registration itself. A tranche stays claimable
//! indefinitely once unlocked.

use vstd::prelude::*;

use crate::errors::ErrorCode;
use crate::state::Config;
use crate::state::PlayerData;

verus! {

/// One of the two tranches released after registration.
#[derive(Clone, Copy, Debug, PartialEq, Eq, Structural)]
pub enum Tranche {
    /// The second quarter of the grant, unlocked at `t_mid`.
    Mid,
    /// The remaining half of the grant, unlocked at `t_end`.
    Final,
}

/// The timestamp at which the tranche unlocks.
pub open spec fn unlock_time(cfg: Config, tranche: Tranche) -> i64 {
    match tranche {
        Tranche::Mid => cfg.t_mid,
        Tranche::Final => cfg.t_end,
    }
}

/// Whether the participant has already claimed the tranche.
pub open spec fn already_claimed(pd: PlayerData, tranche: Tranche) -> bool {
    match tranche {
        Tranche::Mid => pd.claim_mid,
        Tranche::Final => pd.claim_final,
    }
}

/// The amount the tranche releases: a quarter of the grant for the mid
/// tranche, half for the final tranche (truncating division).
pub open spec fn tranche_amount(pd: PlayerData, tranche: Tranche) -> u64 {
    match tranche {
        Tranche::Mid => pd.bslr_allocated / 4,
        Tranche::Final => pd.bslr_allocated / 2,
    }
}

/// The participant record with the tranche's one-shot flag set and every
/// other field unchanged.
pub open spec fn mark_claimed(pd: PlayerData, tranche: Tranche) -> PlayerData {
    match tranche {
        Tranche::Mid => PlayerData { claim_mid: true, ..pd },
        Tranche::Final => PlayerData { claim_final: true, ..pd },
    }
}

/// Decides one claim attempt. The time gate is checked first: before the
/// tranche's unlock timestamp the claim is rejected as not yet available,
/// whatever the flag says. At or after the unlock, a tranche already claimed
/// is rejected as such; otherwise the claim succeeds with the tranche's
/// amount and the record with exactly that flag flipped. The caller commits
/// the updated record only once the ledger transfer succeeds, so a failed
/// transfer leaves the claim safely retryable.
pub fn claim(tranche: Tranche, pd: &PlayerData, cfg: &Config, now: i64) -> (r: Result<
    (u64, PlayerData),
    ErrorCode,
>)
    ensures
        now < unlock_time(*cfg, tranche) ==> r == Err::<(u64, PlayerData), ErrorCode>(
            ErrorCode::ClaimNotAvailable,
        ),
        now >= unlock_time(*cfg, tranche) && already_claimed(*pd, tranche) ==> r == Err::<
            (u64, PlayerData),
            ErrorCode,
        >(ErrorCode::AlreadyClaimed),
        now >= unlock_time(*cfg, tranche) && !already_claimed(*pd, tranche) ==> r == Ok::<
            (u64, PlayerData),
            ErrorCode,
        >((tranche_amount(*pd, tranche), mark_claimed(*pd, tranche))),
{
    let unlock: i64 = match tranche {
        Tranche::Mid => cfg.t_mid,
        Tranche::Final => cfg.t_end,
    };
    if now < unlock {
        return Err(ErrorCode::ClaimNotAvailable);
    }
    match tranche {
        Tranche::Mid => {
            if pd.claim_mid {
                Err(ErrorCode::AlreadyClaimed)
            } else {
                let amount: u64 = pd.bslr_allocated / 4;
                Ok((amount, PlayerData { claim_mid: true, ..*pd }))
            }
        },
        Tranche::Final => {
            if pd.claim_final {
                Err(ErrorCode::AlreadyClaimed)
            } else {
                let amount: u64 = pd.bslr_allocated / 2;
                Ok((amount, PlayerData { claim_final: true, ..*pd }))
            }
        },
    }
}

} // verus!
