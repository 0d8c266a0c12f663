//! The launch state machine: the global configuration together with the
//! participant store, and the operations that drive one launch cycle —
//! initialization, registration, the two vesting claims, and the two
//! administrative terminal transitions.
//!
//! Every operation is a decision step: it validates the request against the
//! current state, computes the next state, and returns the transfer requests
//! and the event for the caller to act on. The caller executes the transfer
//! requests against the external ledger service and commits the new state
//! only if every transfer succeeds, which keeps each operation all-or-nothing
//! from the ledger's point of view.

use vstd::prelude::*;

use std::collections::HashMap;

use crate::allocation::allocate;
use crate::allocation::bonus_eligible;
use crate::allocation::grant_amount;
use crate::allocation::grant_size;
use crate::allocation::new_lp_total;
use crate::allocation::new_prize_total;
use crate::allocation::split_transfers;
use crate::allocation::total_amount;
use crate::allocation::TransferRequest;
use crate::errors::ErrorCode;
use crate::events::ClaimEvent;
use crate::events::LaunchFairEvent;
use crate::events::RegisterEvent;
use crate::state::Config;
use crate::state::PlayerData;
use crate::state::MAX_PLAYERS;
use crate::state::MIN_PLAYERS;
use crate::state::REGISTRATION_FEE;
use crate::vesting::already_claimed;
use crate::vesting::claim;
use crate::vesting::mark_claimed;
use crate::vesting::tranche_amount;
use crate::vesting::unlock_time;
use crate::vesting::Tranche;

verus! {

broadcast use vstd::std_specs::hash::group_hash_axioms;

/// The whole persisted state of one launch cycle: the configuration record
/// and one participant record per registered identity, keyed by it.
#[derive(Clone)]
pub struct LaunchState {
    /// The global configuration record.
    pub config: Config,
    /// The participant store: at most one record per identity.
    pub players: HashMap<u64, PlayerData>,
}

/// What a successful registration hands back to the caller: the fee-split
/// transfer requests, the initial tranche release, and the notification.
pub struct RegisterOutcome {
    /// Fee-token transfers out of escrow, in request order.
    pub fee_transfers: Vec<TransferRequest>,
    /// Grant tokens to release from the reserve to the new participant now:
    /// a quarter of the grant, the initial tranche.
    pub initial_release: u64,
    /// The registration notification.
    pub event: RegisterEvent,
}

/// What a successful claim hands back to the caller: the grant-token amount
/// to release from the reserve to the participant, and the notification.
pub struct ClaimOutcome {
    /// Grant tokens to release to the participant.
    pub amount: u64,
    /// The claim notification.
    pub event: ClaimEvent,
}

/// Whether a registration request passes every precondition: the window is
/// open, the cohort is below the hard cap, the offered amount covers the
/// fee, and the identity is not registered yet.
pub open spec fn register_accepted(s: LaunchState, player: u64, fee_amount: u64) -> bool {
    &&& s.config.registrations_open
    &&& s.config.total_players < MAX_PLAYERS
    &&& fee_amount >= REGISTRATION_FEE
    &&& !s.players@.contains_key(player)
}

/// The record a registration creates: the grant sized by the participant
/// count at that moment, the initial tranche already released, the other two
/// tranches unclaimed.
pub open spec fn fresh_player_record(player: u64, total_players: u64) -> PlayerData {
    PlayerData {
        wallet: player,
        bslr_allocated: grant_amount(total_players),
        bonus_applied: bonus_eligible(total_players),
        claim_initial: true,
        claim_mid: false,
        claim_final: false,
    }
}

/// The configuration after one committed registration: the accumulators
/// take the split's totals and the participant count grows by one.
pub open spec fn config_after_register(cfg: Config) -> Config {
    Config {
        total_players: (cfg.total_players + 1) as u64,
        total_prize_usdt: new_prize_total(cfg),
        total_lp_usdt: new_lp_total(cfg),
        ..cfg
    }
}

impl LaunchState {
    /// The state invariant: the configuration invariant holds, the
    /// participant count equals the number of records, and every record is
    /// well formed and filed under its own wallet identity.
    pub open spec fn wf(self) -> bool {
        &&& self.config.wf()
        &&& self.players@.dom().finite()
        &&& self.players@.len() == self.config.total_players
        &&& forall|p: u64|
            #[trigger] self.players@.contains_key(p) ==> self.players@[p].wf()
                && self.players@[p].wallet == p
    }

    /// Creates the state of a fresh launch cycle: the given identities fixed
    /// for good, no participants, registrations open, vesting timestamps
    /// unset, and both accumulators at zero.
    pub fn initialize_config(
        admin: u64,
        prize_pool_wallet: u64,
        lp_wallet: u64,
        ops_wallet: u64,
        usdt_mint: u64,
        bslr_mint: u64,
    ) -> (s: LaunchState)
        ensures
            s.wf(),
            s.config == (Config {
                admin,
                prize_pool_wallet,
                lp_wallet,
                ops_wallet,
                usdt_mint,
                bslr_mint,
                total_players: 0,
                registrations_open: true,
                t_mid: 0,
                t_end: 0,
                total_prize_usdt: 0,
                total_lp_usdt: 0,
            }),
            s.players@ == Map::<u64, PlayerData>::empty(),
    {
        LaunchState {
            config: Config {
                admin,
                prize_pool_wallet,
                lp_wallet,
                ops_wallet,
                usdt_mint,
                bslr_mint,
                total_players: 0,
                registrations_open: true,
                t_mid: 0,
                t_end: 0,
                total_prize_usdt: 0,
                total_lp_usdt: 0,
            },
            players: HashMap::new(),
        }
    }

    /// Registers one identity: splits the fee by the current phase, creates
    /// the participant record with its grant and bonus flag fixed now, and
    /// releases the initial quarter of the grant. The request is accepted
    /// exactly when the window is open, the cap is not reached, the offered
    /// amount covers the fee and the identity is new; each rejection names
    /// the first failing precondition, in that order, and leaves the state
    /// untouched.
    pub fn register(&mut self, player: u64, fee_amount: u64) -> (r: Result<
        RegisterOutcome,
        ErrorCode,
    >)
        requires
            old(self).wf(),
        ensures
            final(self).wf(),
            r is Err ==> *final(self) == *old(self),
            r is Ok <==> register_accepted(*old(self), player, fee_amount),
            !old(self).config.registrations_open ==> r == Err::<RegisterOutcome, ErrorCode>(
                ErrorCode::RegistrationsClosed,
            ),
            old(self).config.registrations_open && old(self).config.total_players >= MAX_PLAYERS
                ==> r == Err::<RegisterOutcome, ErrorCode>(ErrorCode::MaxPlayersReached),
            old(self).config.registrations_open && old(self).config.total_players < MAX_PLAYERS
                && fee_amount < REGISTRATION_FEE ==> r == Err::<RegisterOutcome, ErrorCode>(
                ErrorCode::InvalidFeeAmount,
            ),
            old(self).config.registrations_open && old(self).config.total_players < MAX_PLAYERS
                && fee_amount >= REGISTRATION_FEE && old(self).players@.contains_key(player) ==> r
                == Err::<RegisterOutcome, ErrorCode>(ErrorCode::AlreadyRegistered),
            r matches Ok(o) ==> {
                &&& o.fee_transfers@ == split_transfers(old(self).config)
                &&& total_amount(o.fee_transfers@) == REGISTRATION_FEE
                &&& o.initial_release == grant_amount(old(self).config.total_players) / 4
                &&& fresh_player_record(player, old(self).config.total_players).released()
                    == o.initial_release
                &&& o.event == (RegisterEvent {
                    player,
                    bslr_allocated: grant_amount(old(self).config.total_players),
                    bonus_applied: bonus_eligible(old(self).config.total_players),
                })
                &&& final(self).config == config_after_register(old(self).config)
                &&& final(self).players@ == old(self).players@.insert(
                    player,
                    fresh_player_record(player, old(self).config.total_players),
                )
            },
    {
        if !self.config.registrations_open {
            return Err(ErrorCode::RegistrationsClosed);
        }
        if self.config.total_players >= MAX_PLAYERS {
            return Err(ErrorCode::MaxPlayersReached);
        }
        let split = match allocate(&self.config, fee_amount) {
            Ok(s) => s,
            Err(e) => {
                return Err(e);
            },
        };
        if self.players.contains_key(&player) {
            return Err(ErrorCode::AlreadyRegistered);
        }
        let (alloc, bonus) = grant_size(self.config.total_players);
        let record = PlayerData {
            wallet: player,
            bslr_allocated: alloc,
            bonus_applied: bonus,
            claim_initial: true,
            claim_mid: false,
            claim_final: false,
        };
        let displaced = self.players.insert(player, record);
        self.config.total_prize_usdt = split.new_total_prize_usdt;
        self.config.total_lp_usdt = split.new_total_lp_usdt;
        self.config.total_players = self.config.total_players + 1;
        proof {
            assert(displaced is None);
            assert(self.players@.dom() =~= old(self).players@.dom().insert(player));
            assert(self.config == config_after_register(old(self).config));
        }
        Ok(RegisterOutcome {
            fee_transfers: split.transfers,
            initial_release: alloc / 4,
            event: RegisterEvent { player, bslr_allocated: alloc, bonus_applied: bonus },
        })
    }

    /// Decides one claim of the given tranche for the given identity: looks
    /// the participant up, applies the vesting engine (time gate first, then
    /// the one-shot flag), and on success files the record with the flag
    /// flipped and returns the release amount. Rejections leave the state
    /// untouched; the configuration is never changed.
    pub fn claim_tranche(&mut self, player: u64, tranche: Tranche, now: i64) -> (r: Result<
        ClaimOutcome,
        ErrorCode,
    >)
        requires
            old(self).wf(),
        ensures
            final(self).wf(),
            final(self).config == old(self).config,
            r is Err ==> *final(self) == *old(self),
            !old(self).players@.contains_key(player) ==> r == Err::<ClaimOutcome, ErrorCode>(
                ErrorCode::UnknownPlayer,
            ),
            old(self).players@.contains_key(player) && now < unlock_time(old(self).config, tranche)
                ==> r == Err::<ClaimOutcome, ErrorCode>(ErrorCode::ClaimNotAvailable),
            old(self).players@.contains_key(player) && now >= unlock_time(
                old(self).config,
                tranche,
            ) && already_claimed(old(self).players@[player], tranche) ==> r == Err::<
                ClaimOutcome,
                ErrorCode,
            >(ErrorCode::AlreadyClaimed),
            r is Ok <==> old(self).players@.contains_key(player) && now >= unlock_time(
                old(self).config,
                tranche,
            ) && !already_claimed(old(self).players@[player], tranche),
            r matches Ok(o) ==> {
                let pd = old(self).players@[player];
                &&& o.amount == tranche_amount(pd, tranche)
                &&& o.event == (ClaimEvent { player, amount: tranche_amount(pd, tranche), claim_type: tranche })
                &&& final(self).players@ == old(self).players@.insert(
                    player,
                    mark_claimed(pd, tranche),
                )
                &&& final(self).players@[player].released() == pd.released() + o.amount
            },
    {
        let record: PlayerData = match self.players.get(&player) {
            Some(p) => *p,
            None => {
                return Err(ErrorCode::UnknownPlayer);
            },
        };
        match claim(tranche, &record, &self.config, now) {
            Err(e) => Err(e),
            Ok((amount, updated)) => {
                let _ = self.players.insert(player, updated);
                proof {
                    assert(self.players@.dom() =~= old(self).players@.dom());
                }
                Ok(ClaimOutcome {
                    amount,
                    event: ClaimEvent { player, amount, claim_type: tranche },
                })
            },
        }
    }

    /// Claims the mid tranche: a quarter of the grant, available from
    /// `t_mid` on, at most once.
    pub fn claim_mid(&mut self, player: u64, now: i64) -> (r: Result<ClaimOutcome, ErrorCode>)
        requires
            old(self).wf(),
        ensures
            final(self).wf(),
            final(self).config == old(self).config,
            r is Err ==> *final(self) == *old(self),
            !old(self).players@.contains_key(player) ==> r == Err::<ClaimOutcome, ErrorCode>(
                ErrorCode::UnknownPlayer,
            ),
            old(self).players@.contains_key(player) && now < old(self).config.t_mid ==> r == Err::<
                ClaimOutcome,
                ErrorCode,
            >(ErrorCode::ClaimNotAvailable),
            old(self).players@.contains_key(player) && now >= old(self).config.t_mid && old(
                self,
            ).players@[player].claim_mid ==> r == Err::<ClaimOutcome, ErrorCode>(
                ErrorCode::AlreadyClaimed,
            ),
            r is Ok <==> old(self).players@.contains_key(player) && now >= old(self).config.t_mid
                && !old(self).players@[player].claim_mid,
            r matches Ok(o) ==> {
                let pd = old(self).players@[player];
                &&& o.amount == pd.bslr_allocated / 4
                &&& o.event == (ClaimEvent {
                    player,
                    amount: (pd.bslr_allocated / 4) as u64,
                    claim_type: Tranche::Mid,
                })
                &&& final(self).players@ == old(self).players@.insert(
                    player,
                    PlayerData { claim_mid: true, ..pd },
                )
            },
    {
        self.claim_tranche(player, Tranche::Mid, now)
    }

    /// Claims the final tranche: half of the grant, available from `t_end`
    /// on, at most once.
    pub fn claim_final(&mut self, player: u64, now: i64) -> (r: Result<ClaimOutcome, ErrorCode>)
        requires
            old(self).wf(),
        ensures
            final(self).wf(),
            final(self).config == old(self).config,
            r is Err ==> *final(self) == *old(self),
            !old(self).players@.contains_key(player) ==> r == Err::<ClaimOutcome, ErrorCode>(
                ErrorCode::UnknownPlayer,
            ),
            old(self).players@.contains_key(player) && now < old(self).config.t_end ==> r == Err::<
                ClaimOutcome,
                ErrorCode,
            >(ErrorCode::ClaimNotAvailable),
            old(self).players@.contains_key(player) && now >= old(self).config.t_end && old(
                self,
            ).players@[player].claim_final ==> r == Err::<ClaimOutcome, ErrorCode>(
                ErrorCode::AlreadyClaimed,
            ),
            r is Ok <==> old(self).players@.contains_key(player) && now >= old(self).config.t_end
                && !old(self).players@[player].claim_final,
            r matches Ok(o) ==> {
                let pd = old(self).players@[player];
                &&& o.amount == pd.bslr_allocated / 2
                &&& o.event == (ClaimEvent {
                    player,
                    amount: (pd.bslr_allocated / 2) as u64,
                    claim_type: Tranche::Final,
                })
                &&& final(self).players@ == old(self).players@.insert(
                    player,
                    PlayerData { claim_final: true, ..pd },
                )
            },
    {
        self.claim_tranche(player, Tranche::Final, now)
    }

    /// Closes the registration window and sets the two vesting unlock
    /// timestamps, admin-only and with `t_mid` strictly before `t_end`.
    /// Rejections leave the state untouched.
    pub fn close_registrations(&mut self, caller: u64, t_mid: i64, t_end: i64) -> (r: Result<
        (),
        ErrorCode,
    >)
        requires
            old(self).wf(),
        ensures
            final(self).wf(),
            r is Err ==> *final(self) == *old(self),
            caller != old(self).config.admin ==> r == Err::<(), ErrorCode>(ErrorCode::Unauthorized),
            caller == old(self).config.admin && t_mid >= t_end ==> r == Err::<(), ErrorCode>(
                ErrorCode::InvalidTimestamp,
            ),
            caller == old(self).config.admin && t_mid < t_end ==> r == Ok::<(), ErrorCode>(())
                && final(self).config == (Config {
                registrations_open: false,
                t_mid,
                t_end,
                ..old(self).config
            }) && final(self).players@ == old(self).players@,
    {
        if caller != self.config.admin {
            return Err(ErrorCode::Unauthorized);
        }
        if t_mid >= t_end {
            return Err(ErrorCode::InvalidTimestamp);
        }
        self.config.registrations_open = false;
        self.config.t_mid = t_mid;
        self.config.t_end = t_end;
        Ok(())
    }

    /// Triggers the public launch, admin-only: emits the summary
    /// notification and closes the registration window. The launch is
    /// accepted only while the participant count is below the fair-launch
    /// minimum, and rejected as `MinPlayersNotReached` at or above it.
    /// Rejections leave the state untouched.
    pub fn launch_fair(&mut self, caller: u64) -> (r: Result<LaunchFairEvent, ErrorCode>)
        requires
            old(self).wf(),
        ensures
            final(self).wf(),
            r is Err ==> *final(self) == *old(self),
            caller != old(self).config.admin ==> r == Err::<LaunchFairEvent, ErrorCode>(
                ErrorCode::Unauthorized,
            ),
            caller == old(self).config.admin && old(self).config.total_players >= MIN_PLAYERS ==> r
                == Err::<LaunchFairEvent, ErrorCode>(ErrorCode::MinPlayersNotReached),
            caller == old(self).config.admin && old(self).config.total_players < MIN_PLAYERS ==> r
                == Ok::<LaunchFairEvent, ErrorCode>(LaunchFairEvent {
                total_players: old(self).config.total_players,
                total_prize_usdt: old(self).config.total_prize_usdt,
            }) && final(self).config == (Config {
                registrations_open: false,
                ..old(self).config
            }) && final(self).players@ == old(self).players@,
    {
        if caller != self.config.admin {
            return Err(ErrorCode::Unauthorized);
        }
        if self.config.total_players >= MIN_PLAYERS {
            return Err(ErrorCode::MinPlayersNotReached);
        }
        let event = LaunchFairEvent {
            total_players: self.config.total_players,
            total_prize_usdt: self.config.total_prize_usdt,
        };
        self.config.registrations_open = false;
        Ok(event)
    }
}

} // verus!
