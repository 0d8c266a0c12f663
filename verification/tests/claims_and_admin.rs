//! Vesting claims (time gates, one-shot flags, tranche amounts) and the two
//! administrative transitions.

use babysaylor_core::errors::ErrorCode;
use babysaylor_core::launch::LaunchState;
use babysaylor_core::state::Config;
use babysaylor_core::state::PlayerData;
use babysaylor_core::state::REGISTRATION_FEE;
use babysaylor_core::vesting::claim;
use babysaylor_core::vesting::Tranche;

const ADMIN: u64 = 1;
const PLAYER: u64 = 77;
const T_MID: i64 = 1_000;
const T_END: i64 = 2_000;

/// One registered player, registrations closed, vesting timestamps set.
fn vesting_state() -> LaunchState {
    let mut s = LaunchState::initialize_config(ADMIN, 2, 3, 4, 5, 6);
    s.register(PLAYER, REGISTRATION_FEE).unwrap();
    s.close_registrations(ADMIN, T_MID, T_END).unwrap();
    s
}

#[test]
fn claim_mid_time_gated_then_once() {
    let mut s = vesting_state();
    // Before t_mid: not available, and the flag stays clear.
    let early = s.claim_mid(PLAYER, T_MID - 1);
    assert!(matches!(early, Err(ErrorCode::ClaimNotAvailable)));
    assert!(!s.players.get(&PLAYER).unwrap().claim_mid);
    // At t_mid: succeeds exactly once with a quarter of the grant.
    let o = s.claim_mid(PLAYER, T_MID).unwrap();
    assert_eq!(o.amount, 6_250_000_000);
    assert_eq!(o.event.player, PLAYER);
    assert_eq!(o.event.amount, 6_250_000_000);
    assert_eq!(o.event.claim_type, Tranche::Mid);
    assert!(s.players.get(&PLAYER).unwrap().claim_mid);
    // The second attempt is a distinct, permanent rejection.
    let again = s.claim_mid(PLAYER, T_MID + 5);
    assert!(matches!(again, Err(ErrorCode::AlreadyClaimed)));
}

#[test]
fn claim_final_time_gated_then_once() {
    let mut s = vesting_state();
    let early = s.claim_final(PLAYER, T_END - 1);
    assert!(matches!(early, Err(ErrorCode::ClaimNotAvailable)));
    let o = s.claim_final(PLAYER, T_END).unwrap();
    assert_eq!(o.amount, 12_500_000_000);
    assert_eq!(o.event.claim_type, Tranche::Final);
    let again = s.claim_final(PLAYER, T_END + 1);
    assert!(matches!(again, Err(ErrorCode::AlreadyClaimed)));
}

#[test]
fn claims_are_independent_of_each_other() {
    // The final tranche can be claimed before the mid tranche; neither
    // affects the other's flag.
    let mut s = vesting_state();
    s.claim_final(PLAYER, T_END).unwrap();
    let record = *s.players.get(&PLAYER).unwrap();
    assert!(record.claim_final && !record.claim_mid);
    let o = s.claim_mid(PLAYER, T_END).unwrap();
    assert_eq!(o.amount, 6_250_000_000);
}

#[test]
fn total_released_never_exceeds_grant() {
    let mut s = LaunchState::initialize_config(ADMIN, 2, 3, 4, 5, 6);
    let reg = s.register(PLAYER, REGISTRATION_FEE).unwrap();
    s.close_registrations(ADMIN, T_MID, T_END).unwrap();
    let mid = s.claim_mid(PLAYER, T_MID).unwrap();
    let last = s.claim_final(PLAYER, T_END).unwrap();
    let grant = s.players.get(&PLAYER).unwrap().bslr_allocated;
    let released = reg.initial_release + mid.amount + last.amount;
    assert!(released <= grant);
    assert_eq!(released, 25_000_000_000);
}

#[test]
fn claim_for_unknown_player_rejected() {
    let mut s = vesting_state();
    let r = s.claim_mid(PLAYER + 1, T_END);
    assert!(matches!(r, Err(ErrorCode::UnknownPlayer)));
}

#[test]
fn vesting_engine_decides_without_the_store() {
    let cfg = Config {
        admin: ADMIN,
        prize_pool_wallet: 2,
        lp_wallet: 3,
        ops_wallet: 4,
        usdt_mint: 5,
        bslr_mint: 6,
        total_players: 1,
        registrations_open: false,
        t_mid: T_MID,
        t_end: T_END,
        total_prize_usdt: 0,
        total_lp_usdt: 0,
    };
    let pd = PlayerData {
        wallet: PLAYER,
        bslr_allocated: 20_000_000_000,
        bonus_applied: false,
        claim_initial: true,
        claim_mid: false,
        claim_final: false,
    };
    assert!(matches!(
        claim(Tranche::Mid, &pd, &cfg, T_MID - 1),
        Err(ErrorCode::ClaimNotAvailable)
    ));
    let (amount, updated) = claim(Tranche::Mid, &pd, &cfg, T_MID).unwrap();
    assert_eq!(amount, 5_000_000_000);
    assert!(updated.claim_mid && !updated.claim_final);
    assert!(matches!(
        claim(Tranche::Mid, &updated, &cfg, T_MID),
        Err(ErrorCode::AlreadyClaimed)
    ));
    let (half, done) = claim(Tranche::Final, &updated, &cfg, T_END).unwrap();
    assert_eq!(half, 10_000_000_000);
    assert!(done.claim_mid && done.claim_final);
}

#[test]
fn close_registrations_requires_admin_and_ordered_times() {
    let mut s = LaunchState::initialize_config(ADMIN, 2, 3, 4, 5, 6);
    let not_admin = s.close_registrations(ADMIN + 1, T_MID, T_END);
    assert!(matches!(not_admin, Err(ErrorCode::Unauthorized)));
    assert!(s.config.registrations_open);
    let bad_times = s.close_registrations(ADMIN, T_END, T_MID);
    assert!(matches!(bad_times, Err(ErrorCode::InvalidTimestamp)));
    let equal_times = s.close_registrations(ADMIN, T_MID, T_MID);
    assert!(matches!(equal_times, Err(ErrorCode::InvalidTimestamp)));
    assert!(s.config.registrations_open);
    s.close_registrations(ADMIN, T_MID, T_END).unwrap();
    assert!(!s.config.registrations_open);
    assert_eq!(s.config.t_mid, T_MID);
    assert_eq!(s.config.t_end, T_END);
}

#[test]
fn launch_fair_succeeds_below_minimum() {
    let mut s = LaunchState::initialize_config(ADMIN, 2, 3, 4, 5, 6);
    s.register(PLAYER, REGISTRATION_FEE).unwrap();
    let not_admin = s.launch_fair(ADMIN + 1);
    assert!(matches!(not_admin, Err(ErrorCode::Unauthorized)));
    // Below the minimum the launch goes through and closes registrations.
    let event = s.launch_fair(ADMIN).unwrap();
    assert_eq!(event.total_players, 1);
    assert_eq!(event.total_prize_usdt, 80_000_000);
    assert!(!s.config.registrations_open);
}

#[test]
fn launch_fair_rejected_at_minimum_count() {
    let mut s = LaunchState::initialize_config(ADMIN, 2, 3, 4, 5, 6);
    let mut i: u64 = 0;
    while i < 15_000 {
        s.register(10_000 + i, REGISTRATION_FEE).unwrap();
        i += 1;
    }
    let r = s.launch_fair(ADMIN);
    assert!(matches!(r, Err(ErrorCode::MinPlayersNotReached)));
    assert!(s.config.registrations_open);
}
