//! A fixed-supply token launch and vesting library.
//!
//! A bounded cohort of participants pays a flat registration fee that is
//! split among a prize pool, a liquidity fund (capped), and an operations
//! fund; the split schedule changes once an early boot threshold of
//! participants is passed. Each participant receives a token grant (with an
//! early-bird bonus below a cutoff) released over three time-gated tranches.
//!
//! The library is the decision core: it computes fee splits, grant sizes and
//! claim amounts, and maintains the configuration and participant records.
//! Moving value between balances is the job of an external ledger/escrow
//! service; the core only emits transfer requests (destination, amount) and
//! never touches balances itself.

pub mod errors;
pub mod state;
pub mod allocation;
pub mod vesting;
pub mod events;
pub mod launch;
pub mod laws;
