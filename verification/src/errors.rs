use vstd::prelude::*;

verus! {

/// Why an operation on the campaign was refused.
///
/// Every failure is fatal to the call that raised it: the caller
/// observes the operation as not having happened, and no accounting
/// state changes.
#[derive(Clone, Copy, Debug, PartialEq, Eq, Structural)]
pub enum Error {
    /// `initialize` was called on an instance that already holds a campaign.
    AlreadyInitialized,
    /// The campaign was read or mutated before `initialize` succeeded.
    NotInitialized,
    /// The caller could not prove the identity the operation requires.
    AuthorizationFailed,
    /// A contribution arrived after the deadline.
    CampaignEnded,
    /// A contribution amount was zero or negative.
    InvalidAmount,
    /// The value-transfer collaborator reported failure.
    TransferFailed,
    /// `claim` was attempted at or before the deadline.
    CampaignStillActive,
    /// `claim` was attempted with `total_raised` below the goal.
    GoalNotReached,
    /// `claim` was attempted after the funds had already been released.
    AlreadyClaimed,
}

} // verus!
