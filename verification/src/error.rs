//! The ways in which a call on a campaign can be refused.

use vstd::prelude::*;

verus! {

/// Why a call was refused. A refused call leaves every campaign as it was.
#[derive(Clone, Copy, Debug, PartialEq, Eq, Hash, Structural)]
pub enum CampaignError {
    /// No campaign has the given identifier.
    NotFound,
    /// The caller is not allowed to make this call on this campaign.
    Unauthorized,
    /// The campaign is in the wrong phase of its life for this call.
    InvalidState,
    /// An amount that has to be positive is zero.
    InvalidAmount,
    /// A duration that has to be positive is zero.
    InvalidDuration,
    /// The call came after the campaign's deadline.
    DeadlinePassed,
    /// The call came before the campaign's deadline.
    DeadlineNotPassed,
    /// The campaign reached its goal, so nothing is refunded.
    GoalMet,
    /// More was asked for than the campaign holds.
    InsufficientFunds,
    /// The caller has no pledge in the campaign.
    NoContribution,
}

} // verus!
