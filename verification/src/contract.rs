//! The registry: every campaign under its identifier, and the calls that
//! the escrow offers, each routed to the campaign it names.
//!
//! Identifiers are handed out in order, starting at zero, and no campaign
//! is ever removed; so the campaign with identifier `i` is the `i`-th that
//! was created.

use crate::campaign::{distinct_accounts, pledges, Campaign, CampaignDTO};
use crate::error::CampaignError;
use crate::ledger::{amount_of, deadline_after, NANOS_PER_SECOND};
use crate::model::{CampaignModel, RegistryModel};
use crate::transfer::{Transfer, TransferOutcome};
use vstd::prelude::*;

verus! {

/// Whether the snapshots show a registry: each shows a stored campaign, and
/// each carries its place in the list as identifier.
pub open spec fn shows_a_registry(snapshots: Seq<CampaignDTO>) -> bool {
    forall|i: int|
        0 <= i < snapshots.len() ==> (#[trigger] snapshots[i]).wf() && snapshots[i].campaign_id
            == i
}

/// The escrow's state: its campaigns and the identifier of the next one.
pub struct Contract {
    campaigns: Vec<Campaign>,
    next_campaign_id: u64,
}

impl View for Contract {
    type V = RegistryModel;

    closed spec fn view(&self) -> RegistryModel {
        RegistryModel {
            campaigns: Seq::new(self.campaigns@.len(), |i: int| self.campaigns@[i]@),
        }
    }
}

impl Contract {
    /// The stored registry is sound: each campaign is sound and carries its
    /// place as identifier, and the next identifier is their number.
    pub closed spec fn wf(&self) -> bool {
        &&& self.next_campaign_id == self.campaigns@.len()
        &&& forall|i: int|
            0 <= i < self.campaigns@.len() ==> {
                &&& (#[trigger] self.campaigns@[i]).wf()
                &&& self.campaigns@[i]@.campaign_id == i
            }
    }

    /// A sound stored registry is a well-formed registry, with identifiers
    /// that fit a `u64`.
    pub proof fn lemma_view_wf(&self)
        requires
            self.wf(),
        ensures
            self@.wf(),
            self@.campaigns.len() <= u64::MAX,
    {
        assert forall|i: int| 0 <= i < self@.campaigns.len() implies (#[trigger] self@.campaigns[i]).wf()
            && self@.campaigns[i].campaign_id == i by {
            self.campaigns@[i].lemma_view_wf();
        }
    }

    /// The place of the campaign with this identifier, if there is one.
    fn place_of(&self, campaign_id: u64) -> (found: Option<usize>)
        requires
            self.wf(),
        ensures
            match found {
                Some(place) => place == campaign_id && self@.contains(campaign_id as nat)
                    && place < self.campaigns@.len() && self.campaigns@[place as int].wf()
                    && self.campaigns@[place as int]@ == self@.campaigns[campaign_id as int],
                None => !self@.contains(campaign_id as nat),
            },
    {
        let count: usize = self.campaigns.len();
        if campaign_id < count as u64 {
            Some(campaign_id as usize)
        } else {
            None
        }
    }

    /// The campaign with this identifier, if there is one.
    fn get_campaign_internal(&self, campaign_id: u64) -> (found: Result<&Campaign, CampaignError>)
        requires
            self.wf(),
        ensures
            match self@.lookup(campaign_id as nat) {
                Ok(campaign) => found matches Ok(stored) && stored@ == campaign && stored.wf(),
                Err(e) => found matches Err(refusal) && refusal == e,
            },
    {
        match self.place_of(campaign_id) {
            Some(place) => Ok(&self.campaigns[place]),
            None => Err(CampaignError::NotFound),
        }
    }

    /// Creates a campaign for `caller` at time `now`, to run for
    /// `duration_seconds`, and yields its identifier.
    ///
    /// Refused with `InvalidAmount` where the goal is zero, else with
    /// `InvalidDuration` where the duration is zero. The new campaign gets
    /// the next identifier; it is active, holds nothing, belongs to the
    /// caller and ends `duration_seconds` seconds after `now`. That instant
    /// has to fit a `u64` of nanoseconds.
    pub fn create_campaign(
        &mut self,
        name: String,
        funding_goal: u128,
        duration_seconds: u64,
        caller: &String,
        now: u64,
    ) -> (outcome: Result<u64, CampaignError>)
        requires
            old(self).wf(),
            funding_goal > 0 ==> deadline_after(now as nat, duration_seconds as nat) <= u64::MAX,
        ensures
            final(self).wf(),
            match old(self)@.create_campaign(
                name@,
                funding_goal as nat,
                duration_seconds as nat,
                caller@,
                now as nat,
            ) {
                Ok((next, id)) => outcome matches Ok(created) && created == id && final(self)@
                    == next,
                Err(e) => outcome matches Err(refusal) && refusal == e && final(self)@ == old(
                    self,
                )@,
            },
    {
        if funding_goal == 0 {
            return Err(CampaignError::InvalidAmount);
        }
        if duration_seconds == 0 {
            return Err(CampaignError::InvalidDuration);
        }
        let campaign_id: u64 = self.next_campaign_id;
        let deadline: u64 = now + duration_seconds * NANOS_PER_SECOND;
        let campaign = Campaign::new(campaign_id, name, caller.clone(), funding_goal, deadline);
        self.campaigns.push(campaign);
        self.next_campaign_id = self.campaigns.len() as u64;
        assert(self@.campaigns =~= old(self)@.campaigns.push(campaign@));
        Ok(campaign_id)
    }

    /// Takes a pledge of `amount` from `caller` for a campaign at time `now`.
    ///
    /// Refused with `NotFound` where no campaign has this identifier, else
    /// with `InvalidState` on a closed campaign, else with `DeadlinePassed`
    /// after the deadline, else with `InvalidAmount` where the amount is
    /// zero, else with `Unauthorized` where the caller owns the campaign. An
    /// accepted pledge is added to that campaign's funds and to the caller's
    /// pledge in it; no other campaign changes.
    pub fn contribute(&mut self, campaign_id: u64, caller: &String, amount: u128, now: u64) -> (outcome:
        Result<(), CampaignError>)
        requires
            old(self).wf(),
        ensures
            final(self).wf(),
            match old(self)@.contribute(campaign_id as nat, caller@, amount as nat, now as nat) {
                Ok(next) => outcome == Ok::<(), CampaignError>(()) && final(self)@ == next,
                Err(e) => outcome == Err::<(), CampaignError>(e) && final(self)@ == old(self)@,
            },
    {
        match self.place_of(campaign_id) {
            None => Err(CampaignError::NotFound),
            Some(place) => {
                let outcome = self.campaigns[place].contribute(caller, amount, now);
                assert(self@.campaigns =~= old(self)@.campaigns.update(
                    place as int,
                    self.campaigns@[place as int]@,
                ));
                outcome
            },
        }
    }

    /// Closes a campaign for `caller`.
    ///
    /// Refused with `NotFound` where no campaign has this identifier, else
    /// with `Unauthorized` for anyone but its owner, else with
    /// `InvalidState` where it is closed already.
    pub fn finalize_campaign(&mut self, campaign_id: u64, caller: &String) -> (outcome: Result<
        (),
        CampaignError,
    >)
        requires
            old(self).wf(),
        ensures
            final(self).wf(),
            match old(self)@.finalize_campaign(campaign_id as nat, caller@) {
                Ok(next) => outcome == Ok::<(), CampaignError>(()) && final(self)@ == next,
                Err(e) => outcome == Err::<(), CampaignError>(e) && final(self)@ == old(self)@,
            },
    {
        match self.place_of(campaign_id) {
            None => Err(CampaignError::NotFound),
            Some(place) => {
                let outcome = self.campaigns[place].finalize(caller);
                assert(self@.campaigns =~= old(self)@.campaigns.update(
                    place as int,
                    self.campaigns@[place as int]@,
                ));
                outcome
            },
        }
    }

    /// First phase of a withdrawal: `caller` asks for `amount` out of a
    /// campaign, or for all its funds where `amount` is `None`.
    ///
    /// Refused with `NotFound` where no campaign has this identifier, else
    /// with `InvalidState` while it is active, else with `Unauthorized` for
    /// anyone but its owner, else with `InsufficientFunds` where it holds
    /// less. An accepted request yields the transfer to make, to the owner;
    /// its end is to be reported to `post_withdraw` with the same identifier
    /// and amount. Nothing changes here: a request made before the report of
    /// an earlier one is judged against the same funds.
    pub fn withdraw_funds(&mut self, campaign_id: u64, caller: &String, amount: Option<u128>) -> (outcome:
        Result<Transfer, CampaignError>)
        requires
            old(self).wf(),
        ensures
            final(self).wf(),
            final(self)@ == old(self)@,
            match old(self)@.withdraw_funds(campaign_id as nat, caller@, amount_of(amount)) {
                Ok(wanted) => outcome matches Ok(transfer) && transfer.amount == wanted
                    && transfer.recipient@ == old(self)@.campaigns[campaign_id as int].owner,
                Err(e) => outcome matches Err(refusal) && refusal == e,
            },
    {
        match self.get_campaign_internal(campaign_id) {
            Err(e) => Err(e),
            Ok(campaign) => campaign.request_withdrawal(caller, amount),
        }
    }

    /// Second phase of a withdrawal: the transfer of `withdraw_amount` out of
    /// a campaign ended in `outcome`.
    ///
    /// Refused with `NotFound` where no campaign has this identifier. After
    /// a transfer that succeeded the amount leaves the campaign's funds,
    /// which stop at zero; after one that failed nothing changes.
    pub fn post_withdraw(&mut self, campaign_id: u64, withdraw_amount: u128, outcome: TransferOutcome) -> (settled:
        Result<(), CampaignError>)
        requires
            old(self).wf(),
        ensures
            final(self).wf(),
            match old(self)@.post_withdraw(campaign_id as nat, withdraw_amount as nat, outcome) {
                Ok(next) => settled == Ok::<(), CampaignError>(()) && final(self)@ == next,
                Err(e) => settled == Err::<(), CampaignError>(e) && final(self)@ == old(self)@,
            },
    {
        match self.place_of(campaign_id) {
            None => Err(CampaignError::NotFound),
            Some(place) => {
                self.campaigns[place].confirm_withdrawal(withdraw_amount, outcome);
                assert(self@.campaigns =~= old(self)@.campaigns.update(
                    place as int,
                    self.campaigns@[place as int]@,
                ));
                Ok(())
            },
        }
    }

    /// The funds of a campaign above its goal, or zero where the goal is not
    /// exceeded. Refused with `NotFound` where no campaign has this
    /// identifier.
    pub fn get_excess_funds(&self, campaign_id: u64) -> (outcome: Result<u128, CampaignError>)
        requires
            self.wf(),
        ensures
            match self@.lookup(campaign_id as nat) {
                Ok(campaign) => outcome matches Ok(excess) && excess == campaign.excess_funds(),
                Err(e) => outcome matches Err(refusal) && refusal == e,
            },
    {
        match self.get_campaign_internal(campaign_id) {
            Err(e) => Err(e),
            Ok(campaign) => Ok(campaign.excess_funds()),
        }
    }

    /// Gives `caller` their pledge in a campaign back at time `now`.
    ///
    /// Refused with `NotFound` where no campaign has this identifier, else
    /// with `InvalidState` while it is active, else with `DeadlineNotPassed`
    /// before its deadline, else with `Unauthorized` for its owner, else
    /// with `GoalMet` where its funds reach the goal, else with
    /// `NoContribution` where the caller has no pledge in it. An accepted
    /// refund removes the pledge, takes its amount out of the campaign's
    /// funds at once, and yields the transfer to make, to the caller.
    pub fn refund(&mut self, campaign_id: u64, caller: &String, now: u64) -> (outcome: Result<
        Transfer,
        CampaignError,
    >)
        requires
            old(self).wf(),
        ensures
            final(self).wf(),
            match old(self)@.refund(campaign_id as nat, caller@, now as nat) {
                Ok((next, amount)) => outcome matches Ok(transfer) && transfer.recipient@
                    == caller@ && transfer.amount == amount && final(self)@ == next,
                Err(e) => outcome matches Err(refusal) && refusal == e && final(self)@ == old(
                    self,
                )@,
            },
    {
        match self.place_of(campaign_id) {
            None => Err(CampaignError::NotFound),
            Some(place) => {
                let outcome = self.campaigns[place].refund(caller, now);
                assert(self@.campaigns =~= old(self)@.campaigns.update(
                    place as int,
                    self.campaigns@[place as int]@,
                ));
                outcome
            },
        }
    }

    /// Replaces the image of a campaign for `caller`.
    ///
    /// Refused with `NotFound` where no campaign has this identifier, else
    /// with `Unauthorized` for anyone but its owner.
    pub fn set_image_url(&mut self, campaign_id: u64, caller: &String, image_url: String) -> (outcome:
        Result<(), CampaignError>)
        requires
            old(self).wf(),
        ensures
            final(self).wf(),
            match old(self)@.set_image_url(campaign_id as nat, caller@, image_url@) {
                Ok(next) => outcome == Ok::<(), CampaignError>(()) && final(self)@ == next,
                Err(e) => outcome == Err::<(), CampaignError>(e) && final(self)@ == old(self)@,
            },
    {
        match self.place_of(campaign_id) {
            None => Err(CampaignError::NotFound),
            Some(place) => {
                let outcome = self.campaigns[place].set_image_url(caller, image_url);
                assert(self@.campaigns =~= old(self)@.campaigns.update(
                    place as int,
                    self.campaigns@[place as int]@,
                ));
                outcome
            },
        }
    }
}

impl Contract {
    /// The registry without campaigns; the first campaign gets identifier
    /// zero.
    pub fn new() -> (contract: Contract)
        ensures
            contract.wf(),
            contract@ == RegistryModel::empty(),
    {
        let contract = Contract { campaigns: Vec::new(), next_campaign_id: 0 };
        assert(contract@.campaigns =~= Seq::<CampaignModel>::empty());
        contract
    }

    /// A campaign as callers see it. Refused with `NotFound` where no
    /// campaign has this identifier.
    pub fn get_campaign(&self, campaign_id: u64) -> (outcome: Result<CampaignDTO, CampaignError>)
        requires
            self.wf(),
        ensures
            match self@.lookup(campaign_id as nat) {
                Ok(campaign) => outcome matches Ok(snapshot) && snapshot@ == campaign
                    && snapshot.wf(),
                Err(e) => outcome matches Err(refusal) && refusal == e,
            },
    {
        match self.get_campaign_internal(campaign_id) {
            Err(e) => Err(e),
            Ok(campaign) => Ok(CampaignDTO::from(campaign)),
        }
    }

    /// The owner, name, goal, funds, deadline, number of contributors,
    /// completion and image of a campaign, in this order. Refused with
    /// `NotFound` where no campaign has this identifier.
    pub fn get_campaign_details(&self, campaign_id: u64) -> (outcome: Result<
        (String, String, u128, u128, u64, u64, bool, String),
        CampaignError,
    >)
        requires
            self.wf(),
        ensures
            match self@.lookup(campaign_id as nat) {
                Ok(campaign) => outcome matches Ok(details) && details.0@ == campaign.owner
                    && details.1@ == campaign.name && details.2 == campaign.funding_goal
                    && details.3 == campaign.total_funds && details.4 == campaign.deadline
                    && details.5 == campaign.contributions.len() && details.6
                    == campaign.is_completed && details.7@ == campaign.image_url,
                Err(e) => outcome matches Err(refusal) && refusal == e,
            },
    {
        match self.get_campaign_internal(campaign_id) {
            Err(e) => Err(e),
            Ok(campaign) => Ok(
                (
                    campaign.owner().clone(),
                    campaign.name().clone(),
                    campaign.funding_goal(),
                    campaign.total_funds(),
                    campaign.deadline(),
                    campaign.total_contributors(),
                    campaign.is_completed(),
                    campaign.image_url().clone(),
                ),
            ),
        }
    }

    /// Every campaign as callers see it, in the order of the identifiers.
    pub fn get_all_campaigns(&self) -> (list: Vec<CampaignDTO>)
        requires
            self.wf(),
        ensures
            list@.len() == self@.campaigns.len(),
            forall|i: int| 0 <= i < list@.len() ==> (#[trigger] list@[i])@ == self@.campaigns[i],
            shows_a_registry(list@),
    {
        let mut list: Vec<CampaignDTO> = Vec::new();
        let mut i: usize = 0;
        while i < self.campaigns.len()
            invariant
                self.wf(),
                i <= self.campaigns@.len(),
                list@.len() == i,
                forall|k: int|
                    0 <= k < i ==> (#[trigger] list@[k])@ == self.campaigns@[k]@ && list@[k].wf(),
            decreases self.campaigns@.len() - i,
        {
            list.push(CampaignDTO::from(&self.campaigns[i]));
            i += 1;
        }
        list
    }

    /// The registry that a list of snapshots shows, where there is one: the
    /// list that `get_all_campaigns` gave shows the registry it came from. A
    /// list shows none where a snapshot shows no stored campaign, or does
    /// not carry its place in the list as identifier.
    pub fn restore(snapshots: &Vec<CampaignDTO>) -> (restored: Option<Contract>)
        ensures
            match restored {
                Some(contract) => shows_a_registry(snapshots@) && contract.wf()
                    && contract@.campaigns.len() == snapshots@.len() && forall|i: int|
                    0 <= i < snapshots@.len() ==> contract@.campaigns[i] == (
                    #[trigger] snapshots@[i])@,
                None => !shows_a_registry(snapshots@),
            },
    {
        let mut campaigns: Vec<Campaign> = Vec::new();
        let mut i: usize = 0;
        while i < snapshots.len()
            invariant
                i <= snapshots@.len(),
                campaigns@.len() == i,
                forall|k: int|
                    0 <= k < i ==> (#[trigger] snapshots@[k]).wf() && snapshots@[k].campaign_id
                        == k,
                forall|k: int|
                    0 <= k < i ==> (#[trigger] campaigns@[k]).wf() && campaigns@[k]@
                        == snapshots@[k]@,
            decreases snapshots@.len() - i,
        {
            if snapshots[i].campaign_id != i as u64 {
                assert(snapshots@[i as int].campaign_id != i);
                return None;
            }
            match Campaign::restore(&snapshots[i]) {
                None => {
                    assert(!snapshots@[i as int].wf());
                    return None;
                },
                Some(campaign) => {
                    campaigns.push(campaign);
                },
            }
            i += 1;
        }
        let next_campaign_id: u64 = campaigns.len() as u64;
        Some(Contract { campaigns, next_campaign_id })
    }

    /// The account that created a campaign. Refused with `NotFound` where no
    /// campaign has this identifier.
    pub fn get_owner(&self, campaign_id: u64) -> (outcome: Result<String, CampaignError>)
        requires
            self.wf(),
        ensures
            match self@.lookup(campaign_id as nat) {
                Ok(campaign) => outcome matches Ok(owner) && owner@ == campaign.owner,
                Err(e) => outcome matches Err(refusal) && refusal == e,
            },
    {
        match self.get_campaign_internal(campaign_id) {
            Err(e) => Err(e),
            Ok(campaign) => Ok(campaign.owner().clone()),
        }
    }

    /// The amount a campaign aims for. Refused with `NotFound` where no
    /// campaign has this identifier.
    pub fn get_funding_goal(&self, campaign_id: u64) -> (outcome: Result<u128, CampaignError>)
        requires
            self.wf(),
        ensures
            match self@.lookup(campaign_id as nat) {
                Ok(campaign) => outcome matches Ok(goal) && goal == campaign.funding_goal,
                Err(e) => outcome matches Err(refusal) && refusal == e,
            },
    {
        match self.get_campaign_internal(campaign_id) {
            Err(e) => Err(e),
            Ok(campaign) => Ok(campaign.funding_goal()),
        }
    }

    /// The funds a campaign holds. Refused with `NotFound` where no campaign
    /// has this identifier.
    pub fn get_total_funds(&self, campaign_id: u64) -> (outcome: Result<u128, CampaignError>)
        requires
            self.wf(),
        ensures
            match self@.lookup(campaign_id as nat) {
                Ok(campaign) => outcome matches Ok(funds) && funds == campaign.total_funds,
                Err(e) => outcome matches Err(refusal) && refusal == e,
            },
    {
        match self.get_campaign_internal(campaign_id) {
            Err(e) => Err(e),
            Ok(campaign) => Ok(campaign.total_funds()),
        }
    }

    /// The pledges of a campaign, one entry for each account that has one,
    /// in no particular order. Refused with `NotFound` where no campaign has
    /// this identifier.
    pub fn get_contributions(&self, campaign_id: u64) -> (outcome: Result<
        Vec<(String, u128)>,
        CampaignError,
    >)
        requires
            self.wf(),
        ensures
            match self@.lookup(campaign_id as nat) {
                Ok(campaign) => outcome matches Ok(list) && distinct_accounts(list@) && pledges(
                    list@,
                ) == campaign.contributions,
                Err(e) => outcome matches Err(refusal) && refusal == e,
            },
    {
        match self.get_campaign_internal(campaign_id) {
            Err(e) => Err(e),
            Ok(campaign) => Ok(campaign.contributions()),
        }
    }

    /// How many accounts have a pledge in a campaign. Refused with
    /// `NotFound` where no campaign has this identifier.
    pub fn get_total_contributors(&self, campaign_id: u64) -> (outcome: Result<u64, CampaignError>)
        requires
            self.wf(),
        ensures
            match self@.lookup(campaign_id as nat) {
                Ok(campaign) => outcome matches Ok(count) && count
                    == campaign.contributions.len(),
                Err(e) => outcome matches Err(refusal) && refusal == e,
            },
    {
        match self.get_campaign_internal(campaign_id) {
            Err(e) => Err(e),
            Ok(campaign) => Ok(campaign.total_contributors()),
        }
    }

    /// The instant after which a campaign takes no pledge. Refused with
    /// `NotFound` where no campaign has this identifier.
    pub fn get_deadline(&self, campaign_id: u64) -> (outcome: Result<u64, CampaignError>)
        requires
            self.wf(),
        ensures
            match self@.lookup(campaign_id as nat) {
                Ok(campaign) => outcome matches Ok(deadline) && deadline == campaign.deadline,
                Err(e) => outcome matches Err(refusal) && refusal == e,
            },
    {
        match self.get_campaign_internal(campaign_id) {
            Err(e) => Err(e),
            Ok(campaign) => Ok(campaign.deadline()),
        }
    }

    /// Whether the owner has closed a campaign. Refused with `NotFound`
    /// where no campaign has this identifier.
    pub fn is_completed(&self, campaign_id: u64) -> (outcome: Result<bool, CampaignError>)
        requires
            self.wf(),
        ensures
            match self@.lookup(campaign_id as nat) {
                Ok(campaign) => outcome matches Ok(completed) && completed
                    == campaign.is_completed,
                Err(e) => outcome matches Err(refusal) && refusal == e,
            },
    {
        match self.get_campaign_internal(campaign_id) {
            Err(e) => Err(e),
            Ok(campaign) => Ok(campaign.is_completed()),
        }
    }

    /// The address of a campaign's image; empty until the owner sets one.
    /// Refused with `NotFound` where no campaign has this identifier.
    pub fn get_image_url(&self, campaign_id: u64) -> (outcome: Result<String, CampaignError>)
        requires
            self.wf(),
        ensures
            match self@.lookup(campaign_id as nat) {
                Ok(campaign) => outcome matches Ok(url) && url@ == campaign.image_url,
                Err(e) => outcome matches Err(refusal) && refusal == e,
            },
    {
        match self.get_campaign_internal(campaign_id) {
            Err(e) => Err(e),
            Ok(campaign) => Ok(campaign.image_url().clone()),
        }
    }
}

impl Default for Contract {
    /// The registry without campaigns.
    fn default() -> (contract: Contract)
        ensures
            contract.wf(),
            contract@ == RegistryModel::empty(),
    {
        Contract::new()
    }
}

} // verus!
