//! The error kinds that the launch operations report.

use vstd::prelude::*;

verus! {

/// Why an operation was rejected. Every rejection carries a specific kind;
/// none is swallowed or downgraded to a generic failure.
#[derive(Clone, Copy, Debug, PartialEq, Eq, Structural)]
pub enum ErrorCode {
    /// Registration was attempted after the registration window closed.
    RegistrationsClosed,
    /// Registration was attempted with the participant cap already reached.
    MaxPlayersReached,
    /// The amount offered for registration is below the flat fee.
    InvalidFeeAmount,
    /// The identity already holds a participant record.
    AlreadyRegistered,
    /// A claim was attempted for an identity with no participant record.
    UnknownPlayer,
    /// The tranche's unlock timestamp has not been reached yet.
    ClaimNotAvailable,
    /// The tranche was already claimed by this participant.
    AlreadyClaimed,
    /// The caller is not the configured admin.
    Unauthorized,
    /// The fair-launch player-count condition does not hold.
    MinPlayersNotReached,
    /// The vesting timestamps are not strictly ordered.
    InvalidTimestamp,
    /// A transfer request was refused by the ledger service. The core never
    /// produces this kind itself; the caller that executes transfer requests
    /// reports it when the ledger fails and rolls the operation back.
    TransferFailed,
}

} // verus!
