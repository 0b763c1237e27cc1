//! What holds of the escrow whatever is asked of it.
//!
//! Each statement here is about the functions of `model`, which specify
//! the executable calls; so it holds of every run of the executable code.
//! The statements on funds speak of exact amounts: they leave out the
//! steps on which an amount stops at `u128::MAX` or at zero.

use crate::error::CampaignError;
use crate::ledger::{add_capped, sub_floored};
use crate::model::{CampaignModel, RegistryModel};
use crate::transfer::TransferOutcome;
use vstd::prelude::*;

verus! {

/// One call on a campaign.
pub enum Step {
    Contribute { caller: Seq<char>, amount: nat, now: nat },
    Finalize { caller: Seq<char> },
    RequestWithdrawal { caller: Seq<char>, amount: Option<nat> },
    ConfirmWithdrawal { amount: nat, outcome: TransferOutcome },
    Refund { caller: Seq<char>, now: nat },
    SetImageUrl { caller: Seq<char>, image_url: Seq<char> },
}

impl Step {
    /// The campaign after this call: changed where the call is accepted,
    /// as it was where the call is refused.
    pub open spec fn apply(self, campaign: CampaignModel) -> CampaignModel {
        match self {
            Step::Contribute { caller, amount, now } => match campaign.contribute(
                caller,
                amount,
                now,
            ) {
                Ok(next) => next,
                Err(_) => campaign,
            },
            Step::Finalize { caller } => match campaign.finalize(caller) {
                Ok(next) => next,
                Err(_) => campaign,
            },
            Step::RequestWithdrawal { caller, amount } => campaign,
            Step::ConfirmWithdrawal { amount, outcome } => campaign.confirm_withdrawal(
                amount,
                outcome,
            ),
            Step::Refund { caller, now } => match campaign.refund(caller, now) {
                Ok((next, _)) => next,
                Err(_) => campaign,
            },
            Step::SetImageUrl { caller, image_url } => match campaign.set_image_url(
                caller,
                image_url,
            ) {
                Ok(next) => next,
                Err(_) => campaign,
            },
        }
    }

    /// What this call pays into the campaign: the amount of an accepted
    /// pledge.
    pub open spec fn paid_in(self, campaign: CampaignModel) -> nat {
        match self {
            Step::Contribute { caller, amount, now } => if campaign.contribute(
                caller,
                amount,
                now,
            ) is Ok {
                amount
            } else {
                0
            },
            _ => 0,
        }
    }

    /// What this call takes out of the campaign: the amount of a withdrawal
    /// whose transfer succeeded, or the pledge of an accepted refund.
    pub open spec fn paid_out(self, campaign: CampaignModel) -> nat {
        match self {
            Step::ConfirmWithdrawal { amount, outcome } => if outcome
                == TransferOutcome::Succeeded {
                amount
            } else {
                0
            },
            Step::Refund { caller, now } => match campaign.refund(caller, now) {
                Ok((_, amount)) => amount,
                Err(_) => 0,
            },
            _ => 0,
        }
    }

    /// The call moves exactly the amount it names: what it pays in fits the
    /// funds, and what it takes out is there.
    pub open spec fn is_exact(self, campaign: CampaignModel) -> bool {
        &&& campaign.total_funds + self.paid_in(campaign) <= u128::MAX
        &&& self.paid_out(campaign) <= campaign.total_funds
    }
}

/// The campaign after the calls of `steps`, made in order.
pub open spec fn run(campaign: CampaignModel, steps: Seq<Step>) -> CampaignModel
    decreases steps.len(),
{
    if steps.len() == 0 {
        campaign
    } else {
        steps.last().apply(run(campaign, steps.drop_last()))
    }
}

/// The sum of what the calls of `steps` pay into the campaign.
pub open spec fn total_paid_in(campaign: CampaignModel, steps: Seq<Step>) -> nat
    decreases steps.len(),
{
    if steps.len() == 0 {
        0
    } else {
        total_paid_in(campaign, steps.drop_last()) + steps.last().paid_in(
            run(campaign, steps.drop_last()),
        )
    }
}

/// The sum of what the calls of `steps` take out of the campaign.
pub open spec fn total_paid_out(campaign: CampaignModel, steps: Seq<Step>) -> nat
    decreases steps.len(),
{
    if steps.len() == 0 {
        0
    } else {
        total_paid_out(campaign, steps.drop_last()) + steps.last().paid_out(
            run(campaign, steps.drop_last()),
        )
    }
}

/// Every call of `steps` moves exactly the amount it names.
pub open spec fn all_exact(campaign: CampaignModel, steps: Seq<Step>) -> bool
    decreases steps.len(),
{
    if steps.len() == 0 {
        true
    } else {
        all_exact(campaign, steps.drop_last()) && steps.last().is_exact(
            run(campaign, steps.drop_last()),
        )
    }
}

/// A campaign is created only with a positive goal and a positive
/// duration: a zero goal is refused with `InvalidAmount`, else a zero
/// duration with `InvalidDuration`, and anything else is accepted.
pub proof fn creation_needs_goal_and_duration(
    registry: RegistryModel,
    name: Seq<char>,
    funding_goal: nat,
    duration_seconds: nat,
    caller: Seq<char>,
    now: nat,
)
    ensures
        funding_goal == 0 ==> registry.create_campaign(
            name,
            funding_goal,
            duration_seconds,
            caller,
            now,
        ) == Err::<(RegistryModel, nat), CampaignError>(CampaignError::InvalidAmount),
        funding_goal > 0 && duration_seconds == 0 ==> registry.create_campaign(
            name,
            funding_goal,
            duration_seconds,
            caller,
            now,
        ) == Err::<(RegistryModel, nat), CampaignError>(CampaignError::InvalidDuration),
        registry.create_campaign(name, funding_goal, duration_seconds, caller, now) is Ok <==> (
        funding_goal > 0 && duration_seconds > 0),
{
}

/// A created campaign gets the next identifier, leaves the campaigns
/// before it as they were, and keeps the registry well formed.
pub proof fn creation_extends_the_registry(
    registry: RegistryModel,
    name: Seq<char>,
    funding_goal: nat,
    duration_seconds: nat,
    caller: Seq<char>,
    now: nat,
)
    requires
        registry.wf(),
        registry.create_campaign(name, funding_goal, duration_seconds, caller, now) is Ok,
    ensures
        ({
            let (next, id) = registry.create_campaign(
                name,
                funding_goal,
                duration_seconds,
                caller,
                now,
            )->Ok_0;
            &&& id == registry.next_id()
            &&& next.next_id() == registry.next_id() + 1
            &&& forall|i: int|
                0 <= i < registry.campaigns.len() ==> next.campaigns[i] == registry.campaigns[i]
            &&& next.campaigns[id as int].owner == caller
            &&& next.campaigns[id as int].total_funds == 0
            &&& !next.campaigns[id as int].is_completed
            &&& (id <= u64::MAX && funding_goal <= u128::MAX && next.campaigns[id as int].deadline
                <= u64::MAX ==> next.wf())
        }),
{
}

/// The funds of a campaign are what was paid in less what was paid out:
/// after any calls that each move exactly the amount they name, the funds
/// are the funds before, plus the accepted pledges, minus the withdrawals
/// whose transfer succeeded, minus the pledges refunded.
pub proof fn funds_are_paid_in_less_paid_out(campaign: CampaignModel, steps: Seq<Step>)
    requires
        all_exact(campaign, steps),
    ensures
        total_paid_out(campaign, steps) <= campaign.total_funds + total_paid_in(campaign, steps),
        run(campaign, steps).total_funds == campaign.total_funds + total_paid_in(campaign, steps)
            - total_paid_out(campaign, steps),
    decreases steps.len(),
{
    if steps.len() > 0 {
        funds_are_paid_in_less_paid_out(campaign, steps.drop_last());
    }
}

/// Funds and pledges change only in an accepted pledge, a confirmed
/// withdrawal or an accepted refund: closing a campaign, asking for a
/// withdrawal and setting the image leave them as they were, and so does
/// every call that is refused.
pub proof fn only_settlements_move_funds(campaign: CampaignModel, step: Step)
    ensures
        (step is Finalize || step is RequestWithdrawal || step is SetImageUrl) ==> step.apply(
            campaign,
        ).total_funds == campaign.total_funds && step.apply(campaign).contributions
            == campaign.contributions,
        (step matches Step::Contribute { caller, amount, now } && campaign.contribute(
            caller,
            amount,
            now,
        ) is Err) ==> step.apply(campaign) == campaign,
        (step matches Step::Refund { caller, now } && campaign.refund(caller, now) is Err)
            ==> step.apply(campaign) == campaign,
        (step matches Step::ConfirmWithdrawal { amount, outcome } && outcome
            == TransferOutcome::Failed) ==> step.apply(campaign) == campaign,
        step.paid_in(campaign) == 0 && step.paid_out(campaign) == 0 ==> step.apply(
            campaign,
        ).total_funds == campaign.total_funds,
{
}

/// A pledge is refused on a closed campaign, after the deadline, where its
/// amount is zero and where it comes from the owner; any other pledge is
/// accepted.
pub proof fn pledge_is_refused_exactly_when(
    campaign: CampaignModel,
    caller: Seq<char>,
    amount: nat,
    now: nat,
)
    ensures
        amount == 0 ==> campaign.contribute(caller, amount, now) is Err,
        now > campaign.deadline ==> campaign.contribute(caller, amount, now) is Err,
        caller == campaign.owner ==> campaign.contribute(caller, amount, now) is Err,
        campaign.is_completed ==> campaign.contribute(caller, amount, now) == Err::<
            CampaignModel,
            CampaignError,
        >(CampaignError::InvalidState),
        campaign.contribute(caller, amount, now) is Ok <==> (!campaign.is_completed && now
            <= campaign.deadline && amount > 0 && caller != campaign.owner),
{
}

/// An accepted pledge adds its amount to the funds and to the caller's
/// pledge, and touches no other pledge; a well-formed campaign stays well
/// formed.
pub proof fn pledge_adds_to_funds_and_pledge(
    campaign: CampaignModel,
    caller: Seq<char>,
    amount: nat,
    now: nat,
)
    requires
        campaign.contribute(caller, amount, now) is Ok,
    ensures
        ({
            let next = campaign.contribute(caller, amount, now)->Ok_0;
            &&& next.total_funds == add_capped(campaign.total_funds, amount)
            &&& next.pledged_by(caller) == add_capped(campaign.pledged_by(caller), amount)
            &&& forall|other: Seq<char>|
                other != caller ==> next.pledged_by(other) == campaign.pledged_by(other)
            &&& (campaign.wf() ==> next.wf())
        }),
{
}

/// Closing is the owner's, and happens once: anyone else is refused with
/// `Unauthorized`, and on a closed campaign the owner is refused with
/// `InvalidState`.
pub proof fn closing_is_the_owners(campaign: CampaignModel, caller: Seq<char>)
    ensures
        caller != campaign.owner ==> campaign.finalize(caller) == Err::<
            CampaignModel,
            CampaignError,
        >(CampaignError::Unauthorized),
        caller == campaign.owner && campaign.is_completed ==> campaign.finalize(caller) == Err::<
            CampaignModel,
            CampaignError,
        >(CampaignError::InvalidState),
        campaign.finalize(caller) is Ok <==> (caller == campaign.owner && !campaign.is_completed),
        campaign.finalize(caller) is Ok ==> campaign.finalize(caller)->Ok_0.is_completed,
{
}

/// No call changes a campaign's identifier, name, owner, goal or deadline,
/// none reopens a closed campaign, and each keeps a well-formed campaign
/// well formed.
pub proof fn calls_keep_identity_and_closure(campaign: CampaignModel, step: Step)
    ensures
        step.apply(campaign).campaign_id == campaign.campaign_id,
        step.apply(campaign).name == campaign.name,
        step.apply(campaign).owner == campaign.owner,
        step.apply(campaign).funding_goal == campaign.funding_goal,
        step.apply(campaign).deadline == campaign.deadline,
        campaign.is_completed ==> step.apply(campaign).is_completed,
        campaign.wf() ==> step.apply(campaign).wf(),
{
}

/// The same, after any number of calls.
pub proof fn runs_keep_identity_and_closure(campaign: CampaignModel, steps: Seq<Step>)
    ensures
        run(campaign, steps).campaign_id == campaign.campaign_id,
        run(campaign, steps).name == campaign.name,
        run(campaign, steps).owner == campaign.owner,
        run(campaign, steps).funding_goal == campaign.funding_goal,
        run(campaign, steps).deadline == campaign.deadline,
        campaign.is_completed ==> run(campaign, steps).is_completed,
        campaign.wf() ==> run(campaign, steps).wf(),
    decreases steps.len(),
{
    if steps.len() > 0 {
        runs_keep_identity_and_closure(campaign, steps.drop_last());
        calls_keep_identity_and_closure(run(campaign, steps.drop_last()), steps.last());
    }
}

/// A campaign is closed only once: after an accepted closing, whatever
/// calls follow, closing it again is refused, with `InvalidState` for the
/// owner and with `Unauthorized` for anyone else.
pub proof fn closing_succeeds_once(
    campaign: CampaignModel,
    first: Seq<char>,
    steps: Seq<Step>,
    second: Seq<char>,
)
    requires
        campaign.finalize(first) is Ok,
    ensures
        ({
            let later = run(campaign.finalize(first)->Ok_0, steps);
            &&& later.finalize(second) is Err
            &&& second == campaign.owner ==> later.finalize(second) == Err::<
                CampaignModel,
                CampaignError,
            >(CampaignError::InvalidState)
            &&& second != campaign.owner ==> later.finalize(second) == Err::<
                CampaignModel,
                CampaignError,
            >(CampaignError::Unauthorized)
        }),
{
    runs_keep_identity_and_closure(campaign.finalize(first)->Ok_0, steps);
}

/// A withdrawal is refused with `InvalidState` while the campaign is
/// active, and refused where it asks for more than the funds; it is
/// accepted for the owner of a closed campaign who asks for no more than
/// the funds, and is then for the amount asked, or for all the funds where
/// none is named.
pub proof fn withdrawal_needs_closure_and_funds(
    campaign: CampaignModel,
    caller: Seq<char>,
    amount: Option<nat>,
)
    ensures
        !campaign.is_completed ==> campaign.request_withdrawal(caller, amount) == Err::<
            nat,
            CampaignError,
        >(CampaignError::InvalidState),
        (amount matches Some(wanted) && wanted > campaign.total_funds)
            ==> campaign.request_withdrawal(caller, amount) is Err,
        (amount matches Some(wanted) && wanted > campaign.total_funds && campaign.is_completed
            && caller == campaign.owner) ==> campaign.request_withdrawal(caller, amount) == Err::<
            nat,
            CampaignError,
        >(CampaignError::InsufficientFunds),
        campaign.request_withdrawal(caller, amount) is Ok <==> (campaign.is_completed && caller
            == campaign.owner && (amount matches Some(wanted) ==> wanted
            <= campaign.total_funds)),
        campaign.request_withdrawal(caller, amount) matches Ok(granted) ==> granted == (match amount {
            Some(wanted) => wanted,
            None => campaign.total_funds,
        }),
{
}

/// A withdrawal whose transfer succeeded takes exactly its amount out of
/// the funds, where the funds hold that much; one whose transfer failed
/// leaves the campaign as it was. Nothing but the funds changes either
/// way.
pub proof fn confirmation_settles_the_funds(campaign: CampaignModel, amount: nat)
    ensures
        amount <= campaign.total_funds ==> campaign.confirm_withdrawal(
            amount,
            TransferOutcome::Succeeded,
        ).total_funds == campaign.total_funds - amount,
        campaign.confirm_withdrawal(amount, TransferOutcome::Succeeded) == (CampaignModel {
            total_funds: sub_floored(campaign.total_funds, amount),
            ..campaign
        }),
        campaign.confirm_withdrawal(amount, TransferOutcome::Failed) == campaign,
{
}

/// After a withdrawal whose transfer failed the owner may ask again: the
/// same request is answered as before.
pub proof fn failed_withdrawal_can_be_retried(
    campaign: CampaignModel,
    caller: Seq<char>,
    amount: Option<nat>,
    reported: nat,
)
    ensures
        campaign.confirm_withdrawal(reported, TransferOutcome::Failed).request_withdrawal(
            caller,
            amount,
        ) == campaign.request_withdrawal(caller, amount),
{
}

/// A refund is accepted exactly on a closed campaign whose deadline is
/// reached and whose goal was missed, for a caller who is not the owner and
/// has a pledge.
pub proof fn refund_is_accepted_exactly_when(campaign: CampaignModel, caller: Seq<char>, now: nat)
    requires
        campaign.wf(),
    ensures
        campaign.refund(caller, now) is Ok <==> (campaign.is_completed && now >= campaign.deadline
            && caller != campaign.owner && campaign.total_funds < campaign.funding_goal
            && campaign.contributions.contains_key(caller)),
        !campaign.is_completed ==> campaign.refund(caller, now) == Err::<
            (CampaignModel, nat),
            CampaignError,
        >(CampaignError::InvalidState),
        campaign.refund(caller, now) != Err::<(CampaignModel, nat), CampaignError>(
            CampaignError::InvalidAmount,
        ),
{
}

/// An accepted refund sends back the caller's pledge, removes exactly that
/// pledge, and takes its amount out of the funds, where the funds hold
/// that much.
pub proof fn refund_removes_the_callers_pledge(
    campaign: CampaignModel,
    caller: Seq<char>,
    now: nat,
)
    requires
        campaign.refund(caller, now) is Ok,
    ensures
        ({
            let (next, amount) = campaign.refund(caller, now)->Ok_0;
            &&& amount == campaign.contributions[caller]
            &&& !next.contributions.contains_key(caller)
            &&& forall|other: Seq<char>|
                other != caller ==> (next.contributions.contains_key(other)
                    <==> campaign.contributions.contains_key(other)) && next.pledged_by(other)
                    == campaign.pledged_by(other)
            &&& next.total_funds == sub_floored(campaign.total_funds, amount)
            &&& (amount <= campaign.total_funds ==> next.total_funds == campaign.total_funds
                - amount)
        }),
{
}

/// A pledge is refunded once: after an accepted refund, a second attempt
/// by the same caller, at the same time or later, is refused with
/// `NoContribution`.
pub proof fn refund_succeeds_once(
    campaign: CampaignModel,
    caller: Seq<char>,
    now: nat,
    later: nat,
)
    requires
        campaign.refund(caller, now) is Ok,
        later >= now,
    ensures
        campaign.refund(caller, now)->Ok_0.0.refund(caller, later) == Err::<
            (CampaignModel, nat),
            CampaignError,
        >(CampaignError::NoContribution),
{
}

/// The excess of a campaign is its funds less its goal where the funds
/// are above the goal, and zero otherwise.
pub proof fn excess_is_funds_above_goal(campaign: CampaignModel)
    ensures
        campaign.total_funds > campaign.funding_goal ==> campaign.excess_funds()
            == campaign.total_funds - campaign.funding_goal,
        campaign.total_funds <= campaign.funding_goal ==> campaign.excess_funds() == 0,
{
}

/// A call on one campaign leaves every other campaign, and the number of
/// campaigns, as they were.
pub proof fn calls_touch_one_campaign(
    registry: RegistryModel,
    campaign_id: nat,
    campaign: CampaignModel,
)
    requires
        registry.contains(campaign_id),
    ensures
        registry.replace(campaign_id, campaign).next_id() == registry.next_id(),
        registry.replace(campaign_id, campaign).campaigns[campaign_id as int] == campaign,
        forall|other: int|
            0 <= other < registry.campaigns.len() && other != campaign_id ==> registry.replace(
                campaign_id,
                campaign,
            ).campaigns[other] == registry.campaigns[other],
{
}

} // verus!
