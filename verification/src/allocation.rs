//! The fund-allocation engine: a pure function of the configuration and a
//! registration fee that yields the transfer requests splitting the fee among
//! the prize pool, the liquidity fund and the operations fund, together with
//! the new accumulator totals. Also sizes the participant's token grant.
//!
//! All arithmetic is integer arithmetic with truncating division; any
//! remainder of the split is swept into the operations transfer so that the
//! whole fee is always forwarded.

use vstd::prelude::*;

use crate::errors::ErrorCode;
use crate::state::Config;
use crate::state::sat_add;
use crate::state::BOOT_THRESHOLD;
use crate::state::BONUS_THRESHOLD;
use crate::state::BSLR_ALLOCATION;
use crate::state::BSLR_BONUS;
use crate::state::LP_CAP_USDT;
use crate::state::REGISTRATION_FEE;

verus! {

/// Prize-pool share of a boot-phase fee (80%).
pub const BOOT_PRIZE_CUT: u64 = REGISTRATION_FEE * 80 / 100;

/// Operations share of a boot-phase fee (20%).
pub const BOOT_OPS_CUT: u64 = REGISTRATION_FEE * 20 / 100;

/// Prize-pool share of a normal-phase fee (20%).
pub const PRIZE_CUT: u64 = REGISTRATION_FEE * 20 / 100;

/// Liquidity share of a normal-phase fee (40%), before the cap is applied.
pub const LP_CUT: u64 = REGISTRATION_FEE * 40 / 100;

/// Marketing sub-bucket of the normal-phase operations share (25%).
pub const OPS_MARKETING_CUT: u64 = REGISTRATION_FEE * 25 / 100;

/// Development sub-bucket of the normal-phase operations share (15%).
pub const OPS_DEV_CUT: u64 = REGISTRATION_FEE * 15 / 100;

/// One transfer request for the external ledger service: pay `amount` out of
/// the fee escrow to the account identified by `destination`.
#[derive(Clone, Copy, Debug, PartialEq, Eq, Structural)]
pub struct TransferRequest {
    /// The receiving account identity.
    pub destination: u64,
    /// The amount to move, in 6-decimal fixed point.
    pub amount: u64,
}

/// Whether a registration at this participant count uses the boot-phase
/// split schedule.
pub open spec fn boot_phase(total_players: u64) -> bool {
    total_players < BOOT_THRESHOLD
}

/// How much room the liquidity fund has left under its cap.
pub open spec fn lp_room(total_lp_usdt: u64) -> u64 {
    if total_lp_usdt <= LP_CAP_USDT {
        (LP_CAP_USDT - total_lp_usdt) as u64
    } else {
        0
    }
}

/// The liquidity share actually sent by a normal-phase registration: the
/// full 40% cut, clamped to the room left under the cap.
pub open spec fn lp_contribution(total_lp_usdt: u64) -> u64 {
    if LP_CUT <= lp_room(total_lp_usdt) {
        LP_CUT
    } else {
        lp_room(total_lp_usdt)
    }
}

/// The exact transfer requests that split one registration fee, given the
/// configuration at the time of the registration.
///
/// Boot phase: 80% to the prize pool and 20% to operations. Normal phase:
/// 20% to the prize pool, the cap-clamped liquidity share to the liquidity
/// fund (omitted entirely when the cap leaves no room), and the 25%+15%
/// operations share plus the liquidity shortfall to operations.
pub open spec fn split_transfers(cfg: Config) -> Seq<TransferRequest> {
    if boot_phase(cfg.total_players) {
        seq![
            TransferRequest { destination: cfg.prize_pool_wallet, amount: BOOT_PRIZE_CUT },
            TransferRequest { destination: cfg.ops_wallet, amount: BOOT_OPS_CUT },
        ]
    } else {
        let lp = lp_contribution(cfg.total_lp_usdt);
        let ops = (OPS_MARKETING_CUT + OPS_DEV_CUT + (LP_CUT - lp)) as u64;
        if lp > 0 {
            seq![
                TransferRequest { destination: cfg.prize_pool_wallet, amount: PRIZE_CUT },
                TransferRequest { destination: cfg.lp_wallet, amount: lp },
                TransferRequest { destination: cfg.ops_wallet, amount: ops },
            ]
        } else {
            seq![
                TransferRequest { destination: cfg.prize_pool_wallet, amount: PRIZE_CUT },
                TransferRequest { destination: cfg.ops_wallet, amount: ops },
            ]
        }
    }
}

/// The prize accumulator after one registration fee is split.
pub open spec fn new_prize_total(cfg: Config) -> u64 {
    sat_add(
        cfg.total_prize_usdt,
        if boot_phase(cfg.total_players) {
            BOOT_PRIZE_CUT
        } else {
            PRIZE_CUT
        },
    )
}

/// The liquidity accumulator after one registration fee is split: unchanged
/// in the boot phase, raised by the clamped contribution otherwise.
pub open spec fn new_lp_total(cfg: Config) -> u64 {
    if boot_phase(cfg.total_players) {
        cfg.total_lp_usdt
    } else {
        (cfg.total_lp_usdt + lp_contribution(cfg.total_lp_usdt)) as u64
    }
}

/// The sum of the amounts of a sequence of transfer requests.
pub open spec fn total_amount(ts: Seq<TransferRequest>) -> int
    decreases ts.len(),
{
    if ts.len() == 0 {
        0
    } else {
        ts[0].amount + total_amount(ts.drop_first())
    }
}

/// Whether a registration at this participant count earns the early-bird
/// bonus.
pub open spec fn bonus_eligible(total_players: u64) -> bool {
    total_players < BONUS_THRESHOLD
}

/// The grant allocated to a participant registering at this participant
/// count: the base allocation, plus the bonus below the bonus cutoff.
pub open spec fn grant_amount(total_players: u64) -> u64 {
    if bonus_eligible(total_players) {
        (BSLR_ALLOCATION + BSLR_BONUS) as u64
    } else {
        BSLR_ALLOCATION
    }
}

/// The outcome of splitting one registration fee: the transfer requests for
/// the ledger service and the accumulator totals the configuration must take
/// once every transfer has succeeded.
pub struct FundSplit {
    /// The fee-token transfers out of escrow, in request order.
    pub transfers: Vec<TransferRequest>,
    /// The prize accumulator after this registration.
    pub new_total_prize_usdt: u64,
    /// The liquidity accumulator after this registration.
    pub new_total_lp_usdt: u64,
}

/// Splits one registration fee according to the phase the configuration is
/// in. Rejects an offered amount below the flat fee before anything else;
/// otherwise returns the exact transfers and the new accumulator totals.
/// The transfer amounts always sum to the whole fee: the liquidity
/// shortfall, when the cap clamps the liquidity share, reappears in the
/// operations transfer.
pub fn allocate(cfg: &Config, fee_amount: u64) -> (r: Result<FundSplit, ErrorCode>)
    requires
        cfg.wf(),
    ensures
        r is Err <==> fee_amount < REGISTRATION_FEE,
        r matches Err(e) ==> e == ErrorCode::InvalidFeeAmount,
        r matches Ok(s) ==> {
            &&& s.transfers@ == split_transfers(*cfg)
            &&& s.new_total_prize_usdt == new_prize_total(*cfg)
            &&& s.new_total_lp_usdt == new_lp_total(*cfg)
            &&& s.new_total_lp_usdt <= LP_CAP_USDT
            &&& cfg.total_lp_usdt <= s.new_total_lp_usdt
            &&& total_amount(s.transfers@) == REGISTRATION_FEE
        },
{
    if fee_amount < REGISTRATION_FEE {
        return Err(ErrorCode::InvalidFeeAmount);
    }
    let mut transfers: Vec<TransferRequest> = Vec::new();
    if cfg.total_players < BOOT_THRESHOLD {
        transfers.push(TransferRequest {
            destination: cfg.prize_pool_wallet,
            amount: BOOT_PRIZE_CUT,
        });
        transfers.push(TransferRequest { destination: cfg.ops_wallet, amount: BOOT_OPS_CUT });
        proof {
            assert(transfers@ =~= split_transfers(*cfg));
            reveal_with_fuel(total_amount, 3);
        }
        Ok(FundSplit {
            transfers,
            new_total_prize_usdt: cfg.total_prize_usdt.saturating_add(BOOT_PRIZE_CUT),
            new_total_lp_usdt: cfg.total_lp_usdt,
        })
    } else {
        let room: u64 = LP_CAP_USDT - cfg.total_lp_usdt;
        let lp: u64 = if LP_CUT <= room {
            LP_CUT
        } else {
            room
        };
        let ops: u64 = OPS_MARKETING_CUT + OPS_DEV_CUT + (LP_CUT - lp);
        transfers.push(TransferRequest { destination: cfg.prize_pool_wallet, amount: PRIZE_CUT });
        if lp > 0 {
            transfers.push(TransferRequest { destination: cfg.lp_wallet, amount: lp });
        }
        transfers.push(TransferRequest { destination: cfg.ops_wallet, amount: ops });
        proof {
            assert(transfers@ =~= split_transfers(*cfg));
            reveal_with_fuel(total_amount, 4);
        }
        Ok(FundSplit {
            transfers,
            new_total_prize_usdt: cfg.total_prize_usdt.saturating_add(PRIZE_CUT),
            new_total_lp_usdt: cfg.total_lp_usdt + lp,
        })
    }
}

/// Sizes the grant of a participant registering at the given participant
/// count, returning the grant and whether the early-bird bonus is in it.
pub fn grant_size(total_players: u64) -> (r: (u64, bool))
    ensures
        r.0 == grant_amount(total_players),
        r.1 == bonus_eligible(total_players),
{
    if total_players < BONUS_THRESHOLD {
        (BSLR_ALLOCATION + BSLR_BONUS, true)
    } else {
        (BSLR_ALLOCATION, false)
    }
}

} // verus!
