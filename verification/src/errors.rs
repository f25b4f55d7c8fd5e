//! Program errors.
use vstd::prelude::*;

verus! {

/// Every way an instruction of the colony can refuse.
#[derive(Debug, Clone, Copy, PartialEq, Eq, Structural)]
pub enum ColonyError {
    /// Arithmetic overflow.
    Overflow,
    /// Parameter outside the published range.
    ParamOutOfRange,
    /// Colony is paused.
    Paused,
    /// Wrong settlement phase for this instruction.
    WrongPhase,
    /// Epoch has not ended yet.
    EpochNotOver,
    /// Colony is not settling.
    NotSettling,
    /// Not enough idle liquidity; use request_redemption.
    InsufficientIdleLiquidity,
    /// Bond is below the configured minimum.
    BelowMinBond,
    /// Deposit is below the configured minimum.
    BelowMinimumDeposit,
    /// Forager is not a scout.
    ForagerNotScout,
    /// Forager is not active.
    ForagerNotActive,
    /// Forager is retired or slashed.
    ForagerInactive,
    /// Signer is not the colony authority.
    NotAuthority,
    /// No pending authority to accept.
    NoPendingAuthority,
    /// Promotion criteria not met.
    PromotionCriteriaNotMet,
    /// Registration and retirement are frozen during settlement.
    RegistrationFrozenDuringSettlement,
    /// Redemption request is not ready to be fulfilled.
    RedemptionNotReady,
    /// Redemption request has already been fully paid.
    RedemptionAlreadyFulfilled,
    /// Amount must be greater than zero.
    ZeroAmount,
    /// Insufficient shares in this position.
    InsufficientShares,
    /// Mint does not match the colony base mint.
    BaseMintMismatch,
    /// Token account owner or mint does not match the expected vault.
    VaultMismatch,
    /// Forager still holds principal; settle and unwind before retiring.
    ForagerStillDeployed,
    /// Colony must have at least one active forager.
    NoActiveForagers,
    /// Forager was already settled for this epoch.
    AlreadySettledThisEpoch,
    /// The slash cause does not hold for this forager.
    NotSlashable,
    /// A slash may not take more than the posted bond.
    SlashTooLarge,
    /// This scout already drew its ticket this epoch.
    ScoutTicketAlreadyDrawn,
    /// The scout pool cannot fund another ticket.
    ScoutPoolExhausted,
    /// The admission mint has already been set.
    KolnyMintAlreadySet,
    /// The admission mint has not been set yet.
    KolnyMintNotSet,
    /// The admission mint does not have the expected decimals.
    KolnyMintDecimalsMismatch,
    /// The admission mint still has a mint authority.
    KolnyMintAuthorityNotRevoked,
    /// The admission mint still has a freeze authority.
    KolnyMintFreezeAuthorityNotRevoked,
}

} // verus!
