use vstd::prelude::*;

verus! {

/// Every failure the protocol can report.
///
/// Each failing check returns its own kind, so a caller can tell the
/// exact cause apart; no error is ever swallowed or folded into a
/// generic failure.
#[derive(Clone, Copy, PartialEq, Eq, Debug, Structural)]
pub enum EscrowError {
    /// The instruction payload is malformed, names an unknown tag, or
    /// selects the reserved, not-yet-activated operation.
    InvalidInstruction,
    /// A required authorizer did not co-sign the call.
    MissingSignature,
    /// The target account's balance is below the rent-exemption
    /// threshold, so the runtime could reclaim it.
    NotRentExempt,
    /// An account that must be owned by this program is not.
    IncorrectProgramId,
    /// The declared swap-pair identity does not match the supplied
    /// account.
    InvalidSwapPair,
    /// The swap-pair record is not initialized, no longer active, or
    /// the taker is the creator.
    InvalidAccountData,
    /// Fewer accounts were supplied than the operation consumes.
    NotEnoughAccounts,
}

} // verus!
