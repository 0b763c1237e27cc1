//! The escrow as mathematics: what a campaign and the registry are, and
//! what each call makes of them.
//!
//! Every executable function of this crate is specified by a function of
//! this module, applied to the views of its arguments. A step that is
//! refused yields the error and no new state; the caller's state is then
//! left as it was.

use crate::error::CampaignError;
use crate::ledger::{add_capped, deadline_after, sub_floored};
use crate::transfer::TransferOutcome;
use vstd::prelude::*;

verus! {

/// One campaign: a goal, a deadline, an owner and the pledges made so far.
#[verifier::ext_equal]
pub struct CampaignModel {
    pub campaign_id: nat,
    pub name: Seq<char>,
    pub owner: Seq<char>,
    pub funding_goal: nat,
    pub total_funds: nat,
    /// The pledge of each account that has one. No pledge is zero.
    pub contributions: Map<Seq<char>, nat>,
    pub deadline: nat,
    pub is_completed: bool,
    pub image_url: Seq<char>,
}

impl CampaignModel {
    /// What holds of every campaign that the registry keeps: a positive
    /// goal, finitely many pledges, none of them zero, none by the owner,
    /// and numbers that fit their machine types.
    pub open spec fn wf(self) -> bool {
        &&& self.campaign_id <= u64::MAX
        &&& 0 < self.funding_goal <= u128::MAX
        &&& self.total_funds <= u128::MAX
        &&& self.deadline <= u64::MAX
        &&& self.contributions.dom().finite()
        &&& !self.contributions.contains_key(self.owner)
        &&& forall|who: Seq<char>| #[trigger]
            self.contributions.contains_key(who) ==> 0 < self.contributions[who] <= u128::MAX
    }

    /// A campaign as it is when created: active, empty, without an image.
    pub open spec fn launch(
        campaign_id: nat,
        name: Seq<char>,
        owner: Seq<char>,
        funding_goal: nat,
        deadline: nat,
    ) -> CampaignModel {
        CampaignModel {
            campaign_id,
            name,
            owner,
            funding_goal,
            total_funds: 0,
            contributions: Map::empty(),
            deadline,
            is_completed: false,
            image_url: Seq::empty(),
        }
    }

    /// What `who` has pledged: zero for an account without a pledge.
    pub open spec fn pledged_by(self, who: Seq<char>) -> nat {
        if self.contributions.contains_key(who) {
            self.contributions[who]
        } else {
            0
        }
    }

    /// The funds above the goal, or zero.
    pub open spec fn excess_funds(self) -> nat {
        sub_floored(self.total_funds, self.funding_goal)
    }

    /// `caller` pledges `amount` at time `now`. Accepted while the campaign
    /// is active and the deadline has not passed, for a positive amount from
    /// anyone but the owner; the amount is added to the funds and to the
    /// caller's pledge.
    pub open spec fn contribute(self, caller: Seq<char>, amount: nat, now: nat) -> Result<
        CampaignModel,
        CampaignError,
    > {
        if self.is_completed {
            Err(CampaignError::InvalidState)
        } else if now > self.deadline {
            Err(CampaignError::DeadlinePassed)
        } else if amount == 0 {
            Err(CampaignError::InvalidAmount)
        } else if caller == self.owner {
            Err(CampaignError::Unauthorized)
        } else {
            Ok(
                CampaignModel {
                    total_funds: add_capped(self.total_funds, amount),
                    contributions: self.contributions.insert(
                        caller,
                        add_capped(self.pledged_by(caller), amount),
                    ),
                    ..self
                },
            )
        }
    }

    /// `caller` closes the campaign. Only the owner may, and only once;
    /// neither the goal nor the deadline matters.
    pub open spec fn finalize(self, caller: Seq<char>) -> Result<CampaignModel, CampaignError> {
        if caller != self.owner {
            Err(CampaignError::Unauthorized)
        } else if self.is_completed {
            Err(CampaignError::InvalidState)
        } else {
            Ok(CampaignModel { is_completed: true, ..self })
        }
    }

    /// `caller` asks to withdraw `amount`, or all the funds where no amount
    /// is given. Accepted for the owner of a closed campaign that holds that
    /// much; the result is the amount to transfer. The campaign itself does
    /// not change: the funds leave it at confirmation.
    pub open spec fn request_withdrawal(self, caller: Seq<char>, amount: Option<nat>) -> Result<
        nat,
        CampaignError,
    > {
        let wanted = match amount {
            Some(a) => a,
            None => self.total_funds,
        };
        if !self.is_completed {
            Err(CampaignError::InvalidState)
        } else if caller != self.owner {
            Err(CampaignError::Unauthorized)
        } else if wanted > self.total_funds {
            Err(CampaignError::InsufficientFunds)
        } else {
            Ok(wanted)
        }
    }

    /// The transfer of a withdrawal of `amount` ended in `outcome`: where it
    /// succeeded the amount leaves the funds, where it failed nothing
    /// changes.
    pub open spec fn confirm_withdrawal(self, amount: nat, outcome: TransferOutcome) -> CampaignModel {
        match outcome {
            TransferOutcome::Succeeded => CampaignModel {
                total_funds: sub_floored(self.total_funds, amount),
                ..self
            },
            TransferOutcome::Failed => self,
        }
    }

    /// `caller` takes their pledge back at time `now`. Accepted once the
    /// campaign is closed and its deadline reached, from anyone but the
    /// owner, where the goal was missed and the caller has a pledge. The
    /// pledge is removed and leaves the funds; the result pairs the new
    /// campaign with the amount to send back.
    pub open spec fn refund(self, caller: Seq<char>, now: nat) -> Result<
        (CampaignModel, nat),
        CampaignError,
    > {
        if !self.is_completed {
            Err(CampaignError::InvalidState)
        } else if now < self.deadline {
            Err(CampaignError::DeadlineNotPassed)
        } else if caller == self.owner {
            Err(CampaignError::Unauthorized)
        } else if self.total_funds >= self.funding_goal {
            Err(CampaignError::GoalMet)
        } else if !self.contributions.contains_key(caller) {
            Err(CampaignError::NoContribution)
        } else if self.contributions[caller] == 0 {
            Err(CampaignError::InvalidAmount)
        } else {
            Ok(
                (
                    CampaignModel {
                        total_funds: sub_floored(self.total_funds, self.contributions[caller]),
                        contributions: self.contributions.remove(caller),
                        ..self
                    },
                    self.contributions[caller],
                ),
            )
        }
    }

    /// `caller` replaces the campaign's image. Only the owner may.
    pub open spec fn set_image_url(self, caller: Seq<char>, image_url: Seq<char>) -> Result<
        CampaignModel,
        CampaignError,
    > {
        if caller != self.owner {
            Err(CampaignError::Unauthorized)
        } else {
            Ok(CampaignModel { image_url, ..self })
        }
    }
}

/// The registry: every campaign ever created, each at the index that is its
/// identifier. The next identifier is the number of campaigns.
#[verifier::ext_equal]
pub struct RegistryModel {
    pub campaigns: Seq<CampaignModel>,
}

impl RegistryModel {
    /// Every campaign is well formed and carries its index as identifier.
    pub open spec fn wf(self) -> bool {
        forall|i: int|
            0 <= i < self.campaigns.len() ==> {
                &&& (#[trigger] self.campaigns[i]).wf()
                &&& self.campaigns[i].campaign_id == i
            }
    }

    /// The registry without campaigns.
    pub open spec fn empty() -> RegistryModel {
        RegistryModel { campaigns: Seq::empty() }
    }

    /// The identifier that the next campaign gets.
    pub open spec fn next_id(self) -> nat {
        self.campaigns.len()
    }

    /// Whether a campaign has this identifier.
    pub open spec fn contains(self, campaign_id: nat) -> bool {
        campaign_id < self.campaigns.len()
    }

    /// The campaign with this identifier.
    pub open spec fn lookup(self, campaign_id: nat) -> Result<CampaignModel, CampaignError> {
        if self.contains(campaign_id) {
            Ok(self.campaigns[campaign_id as int])
        } else {
            Err(CampaignError::NotFound)
        }
    }

    /// The registry with `campaign` in place of the one with this identifier.
    pub open spec fn replace(self, campaign_id: nat, campaign: CampaignModel) -> RegistryModel {
        RegistryModel { campaigns: self.campaigns.update(campaign_id as int, campaign) }
    }

    /// `caller` creates a campaign at time `now`, to run for
    /// `duration_seconds`. Accepted for a positive goal and a positive
    /// duration; the result pairs the new registry with the identifier of
    /// the campaign, which is active, empty and owned by the caller.
    pub open spec fn create_campaign(
        self,
        name: Seq<char>,
        funding_goal: nat,
        duration_seconds: nat,
        caller: Seq<char>,
        now: nat,
    ) -> Result<(RegistryModel, nat), CampaignError> {
        if funding_goal == 0 {
            Err(CampaignError::InvalidAmount)
        } else if duration_seconds == 0 {
            Err(CampaignError::InvalidDuration)
        } else {
            Ok(
                (
                    RegistryModel {
                        campaigns: self.campaigns.push(
                            CampaignModel::launch(
                                self.next_id(),
                                name,
                                caller,
                                funding_goal,
                                deadline_after(now, duration_seconds),
                            ),
                        ),
                    },
                    self.next_id(),
                ),
            )
        }
    }

    /// `CampaignModel::contribute` on the campaign with this identifier.
    pub open spec fn contribute(
        self,
        campaign_id: nat,
        caller: Seq<char>,
        amount: nat,
        now: nat,
    ) -> Result<RegistryModel, CampaignError> {
        match self.lookup(campaign_id) {
            Err(e) => Err(e),
            Ok(campaign) => match campaign.contribute(caller, amount, now) {
                Err(e) => Err(e),
                Ok(next) => Ok(self.replace(campaign_id, next)),
            },
        }
    }

    /// `CampaignModel::finalize` on the campaign with this identifier.
    pub open spec fn finalize_campaign(self, campaign_id: nat, caller: Seq<char>) -> Result<
        RegistryModel,
        CampaignError,
    > {
        match self.lookup(campaign_id) {
            Err(e) => Err(e),
            Ok(campaign) => match campaign.finalize(caller) {
                Err(e) => Err(e),
                Ok(next) => Ok(self.replace(campaign_id, next)),
            },
        }
    }

    /// `CampaignModel::request_withdrawal` on the campaign with this
    /// identifier.
    pub open spec fn withdraw_funds(
        self,
        campaign_id: nat,
        caller: Seq<char>,
        amount: Option<nat>,
    ) -> Result<nat, CampaignError> {
        match self.lookup(campaign_id) {
            Err(e) => Err(e),
            Ok(campaign) => campaign.request_withdrawal(caller, amount),
        }
    }

    /// `CampaignModel::confirm_withdrawal` on the campaign with this
    /// identifier.
    pub open spec fn post_withdraw(
        self,
        campaign_id: nat,
        amount: nat,
        outcome: TransferOutcome,
    ) -> Result<RegistryModel, CampaignError> {
        match self.lookup(campaign_id) {
            Err(e) => Err(e),
            Ok(campaign) => Ok(
                self.replace(campaign_id, campaign.confirm_withdrawal(amount, outcome)),
            ),
        }
    }

    /// `CampaignModel::refund` on the campaign with this identifier.
    pub open spec fn refund(self, campaign_id: nat, caller: Seq<char>, now: nat) -> Result<
        (RegistryModel, nat),
        CampaignError,
    > {
        match self.lookup(campaign_id) {
            Err(e) => Err(e),
            Ok(campaign) => match campaign.refund(caller, now) {
                Err(e) => Err(e),
                Ok((next, amount)) => Ok((self.replace(campaign_id, next), amount)),
            },
        }
    }

    /// `CampaignModel::set_image_url` on the campaign with this identifier.
    pub open spec fn set_image_url(
        self,
        campaign_id: nat,
        caller: Seq<char>,
        image_url: Seq<char>,
    ) -> Result<RegistryModel, CampaignError> {
        match self.lookup(campaign_id) {
            Err(e) => Err(e),
            Ok(campaign) => match campaign.set_image_url(caller, image_url) {
                Err(e) => Err(e),
                Ok(next) => Ok(self.replace(campaign_id, next)),
            },
        }
    }
}

} // verus!
