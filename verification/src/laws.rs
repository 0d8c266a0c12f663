//! Laws of the launch rules that hold across operations, stated and proved
//! once over the spec-level model that the operation contracts use.

use vstd::prelude::*;

use crate::allocation::lp_contribution;
use crate::allocation::LP_CUT;
use crate::allocation::new_lp_total;
use crate::allocation::split_transfers;
use crate::allocation::total_amount;
use crate::state::Config;
use crate::state::PlayerData;
use crate::state::LP_CAP_USDT;
use crate::state::REGISTRATION_FEE;

verus! {

/// The tranche schedule can never over-release: whatever subset of the
/// three one-shot tranches a participant has claimed, the total released —
/// a quarter for the initial, a quarter for the mid and half for the final
/// tranche — never exceeds the participant's grant.
pub proof fn lemma_released_within_allocation(pd: PlayerData)
    ensures
        pd.released() <= pd.bslr_allocated,
{
    let a = pd.bslr_allocated;
    assert(a / 4 + a / 4 <= a / 2 && a / 2 + a / 2 <= a) by (nonlinear_arith);
}

/// The liquidity accumulator is monotone and capped: one registration never
/// lowers it and never pushes it past the liquidity cap, so no sequence of
/// registrations ever can.
pub proof fn lemma_liquidity_capped(cfg: Config)
    requires
        cfg.total_lp_usdt <= LP_CAP_USDT,
    ensures
        cfg.total_lp_usdt <= new_lp_total(cfg),
        new_lp_total(cfg) <= LP_CAP_USDT,
{
}

/// The split loses no value: in either phase the fee-split transfer
/// requests of one registration sum to exactly the registration fee, the
/// liquidity shortfall under the cap reappearing in the operations
/// transfer.
pub proof fn lemma_split_conserves_fee(cfg: Config)
    requires
        cfg.total_lp_usdt <= LP_CAP_USDT,
    ensures
        total_amount(split_transfers(cfg)) == REGISTRATION_FEE,
{
    reveal_with_fuel(total_amount, 4);
}

/// A registration at the liquidity cap contributes nothing to liquidity,
/// and one below it contributes exactly the smaller of the 40% share and
/// the room left, so the accumulator lands exactly on the cap when the
/// share does not fit.
pub proof fn lemma_lp_clamped_to_cap(cfg: Config)
    requires
        cfg.total_lp_usdt <= LP_CAP_USDT,
    ensures
        cfg.total_lp_usdt + lp_contribution(cfg.total_lp_usdt) <= LP_CAP_USDT,
        LP_CAP_USDT - cfg.total_lp_usdt < LP_CUT ==> cfg.total_lp_usdt
            + lp_contribution(cfg.total_lp_usdt) == LP_CAP_USDT,
{
}

} // verus!
