//! One campaign as it is stored, and the calls that change it.
//!
//! The pledges are kept as a list of accounts with their amounts, one entry
//! for each account. Its meaning is the map `pledges`; the order of the
//! entries carries no meaning.

use crate::error::CampaignError;
use crate::ledger::{amount_of, token_is_zero, token_saturating_add, token_saturating_sub};
use crate::model::CampaignModel;
use crate::transfer::{Transfer, TransferOutcome};
use vstd::prelude::*;

verus! {

/// Whether some entry of the list belongs to `who`.
pub open spec fn has_entry(entries: Seq<(String, u128)>, who: Seq<char>) -> bool {
    exists|i: int| 0 <= i < entries.len() && (#[trigger] entries[i]).0@ == who
}

/// The position of an entry of `who`, where there is one.
pub open spec fn entry_of(entries: Seq<(String, u128)>, who: Seq<char>) -> int {
    choose|i: int| 0 <= i < entries.len() && (#[trigger] entries[i]).0@ == who
}

/// No two entries of the list belong to the same account.
pub open spec fn distinct_accounts(entries: Seq<(String, u128)>) -> bool {
    forall|i: int, j: int|
        0 <= i < j < entries.len() ==> (#[trigger] entries[i]).0@ != (#[trigger] entries[j]).0@
}

/// The list read as a map from each account to its amount.
pub open spec fn pledges(entries: Seq<(String, u128)>) -> Map<Seq<char>, nat> {
    Map::new(
        |who: Seq<char>| has_entry(entries, who),
        |who: Seq<char>| entries[entry_of(entries, who)].1 as nat,
    )
}

/// In a list without repeated accounts, the map holds each entry's amount
/// under the entry's account.
pub proof fn lemma_pledge_at(entries: Seq<(String, u128)>, i: int)
    requires
        distinct_accounts(entries),
        0 <= i < entries.len(),
    ensures
        pledges(entries).contains_key(entries[i].0@),
        pledges(entries)[entries[i].0@] == entries[i].1,
{
    let who = entries[i].0@;
    assert(has_entry(entries, who));
    let j = entry_of(entries, who);
    assert(0 <= j < entries.len() && entries[j].0@ == who);
    assert(j == i);
}

/// A new entry for an account that has none adds that account to the map.
pub proof fn lemma_pledges_push(entries: Seq<(String, u128)>, entry: (String, u128))
    requires
        distinct_accounts(entries),
        !has_entry(entries, entry.0@),
    ensures
        distinct_accounts(entries.push(entry)),
        pledges(entries.push(entry)) == pledges(entries).insert(entry.0@, entry.1 as nat),
{
    let after = entries.push(entry);
    assert forall|i: int, j: int| 0 <= i < j < after.len() implies (#[trigger] after[i]).0@ != (
    #[trigger] after[j]).0@ by {
        if j < entries.len() {
            assert(entries[i].0@ != entries[j].0@);
        } else {
            assert(entries[i].0@ != entry.0@);
        }
    }
    let last = entries.len() as int;
    assert(after[last] == entry);
    assert forall|who: Seq<char>| has_entry(after, who) <==> (has_entry(entries, who) || who
        == entry.0@) by {
        if has_entry(after, who) {
            let i = entry_of(after, who);
            if i < entries.len() {
                assert(entries[i].0@ == who);
            }
        }
        if has_entry(entries, who) {
            let i = entry_of(entries, who);
            assert(after[i].0@ == who);
        }
    }
    assert forall|who: Seq<char>| has_entry(after, who) implies #[trigger] pledges(after)[who]
        == pledges(entries).insert(entry.0@, entry.1 as nat)[who] by {
        let i = entry_of(after, who);
        lemma_pledge_at(after, i);
        if i < entries.len() {
            assert(entries[i].0@ == who);
            lemma_pledge_at(entries, i);
        }
    }
    assert(pledges(after) =~= pledges(entries).insert(entry.0@, entry.1 as nat));
}

/// A new amount in the entry at `i` changes the map at that entry's account
/// and nowhere else.
pub proof fn lemma_pledges_update(entries: Seq<(String, u128)>, i: int, entry: (String, u128))
    requires
        distinct_accounts(entries),
        0 <= i < entries.len(),
        entry.0@ == entries[i].0@,
    ensures
        distinct_accounts(entries.update(i, entry)),
        pledges(entries.update(i, entry)) == pledges(entries).insert(entry.0@, entry.1 as nat),
{
    let after = entries.update(i, entry);
    assert forall|a: int, b: int| 0 <= a < b < after.len() implies (#[trigger] after[a]).0@ != (
    #[trigger] after[b]).0@ by {
        assert(entries[a].0@ != entries[b].0@);
    }
    assert forall|who: Seq<char>| has_entry(after, who) <==> has_entry(entries, who) by {
        if has_entry(after, who) {
            let k = entry_of(after, who);
            assert(entries[k].0@ == who);
        }
        if has_entry(entries, who) {
            let k = entry_of(entries, who);
            assert(after[k].0@ == who);
        }
    }
    assert(has_entry(entries, entry.0@)) by {
        assert(entries[i].0@ == entry.0@);
    }
    assert forall|who: Seq<char>| has_entry(after, who) implies #[trigger] pledges(after)[who]
        == pledges(entries).insert(entry.0@, entry.1 as nat)[who] by {
        let k = entry_of(after, who);
        lemma_pledge_at(after, k);
        if k != i {
            assert(entries[k].0@ == who);
            assert(entries[k].0@ != entries[i].0@);
            lemma_pledge_at(entries, k);
        }
    }
    assert(pledges(after) =~= pledges(entries).insert(entry.0@, entry.1 as nat));
}

/// Moving the last entry into place `i` and dropping the last place removes
/// from the map the account that was at `i`, and nothing else.
pub proof fn lemma_pledges_swap_remove(entries: Seq<(String, u128)>, i: int)
    requires
        distinct_accounts(entries),
        0 <= i < entries.len(),
    ensures
        distinct_accounts(entries.update(i, entries.last()).drop_last()),
        pledges(entries.update(i, entries.last()).drop_last()) == pledges(entries).remove(
            entries[i].0@,
        ),
{
    let gone = entries[i].0@;
    let last = entries.len() - 1;
    let after = entries.update(i, entries.last()).drop_last();
    // Where each place of the new list comes from in the old one.
    let source = |k: int| if k == i { last } else { k };
    assert forall|k: int| 0 <= k < after.len() implies #[trigger] after[k] == entries[source(k)]
        && 0 <= source(k) < entries.len() && source(k) != i by {}
    assert forall|a: int, b: int| 0 <= a < b < after.len() implies (#[trigger] after[a]).0@ != (
    #[trigger] after[b]).0@ by {
        let sa = source(a);
        let sb = source(b);
        assert(after[a] == entries[sa]);
        assert(after[b] == entries[sb]);
        assert(sa != sb);
        if sa < sb {
            assert(entries[sa].0@ != entries[sb].0@);
        } else {
            assert(entries[sb].0@ != entries[sa].0@);
        }
    }
    assert forall|who: Seq<char>| has_entry(after, who) <==> (has_entry(entries, who) && who
        != gone) by {
        if has_entry(after, who) {
            let k = entry_of(after, who);
            let s = source(k);
            assert(after[k] == entries[s]);
            assert(entries[s].0@ == who);
            if s < i {
                assert(entries[s].0@ != entries[i].0@);
            } else {
                assert(entries[i].0@ != entries[s].0@);
            }
        }
        if has_entry(entries, who) && who != gone {
            let k = entry_of(entries, who);
            assert(k != i);
            if k == last {
                assert(after[i].0@ == who);
            } else {
                assert(after[k].0@ == who);
            }
        }
    }
    assert forall|who: Seq<char>| has_entry(after, who) implies #[trigger] pledges(after)[who]
        == pledges(entries).remove(gone)[who] by {
        let k = entry_of(after, who);
        lemma_pledge_at(after, k);
        let s = source(k);
        assert(after[k] == entries[s]);
        lemma_pledge_at(entries, s);
    }
    assert(pledges(after) =~= pledges(entries).remove(gone));
}

/// A list without repeated accounts has as many accounts as entries.
pub proof fn lemma_pledges_count(entries: Seq<(String, u128)>)
    requires
        distinct_accounts(entries),
    ensures
        pledges(entries).dom().finite(),
        pledges(entries).dom().len() == entries.len(),
    decreases entries.len(),
{
    if entries.len() == 0 {
        assert(pledges(entries).dom() =~= Set::<Seq<char>>::empty());
    } else {
        let front = entries.drop_last();
        let entry = entries.last();
        assert(entries =~= front.push(entry));
        assert(distinct_accounts(front)) by {
            assert forall|i: int, j: int| 0 <= i < j < front.len() implies (#[trigger] front[i]).0@
                != (#[trigger] front[j]).0@ by {
                assert(entries[i].0@ != entries[j].0@);
            }
        }
        assert(!has_entry(front, entry.0@)) by {
            if has_entry(front, entry.0@) {
                let i = entry_of(front, entry.0@);
                assert(entries[i].0@ != entries[entries.len() - 1].0@);
            }
        }
        lemma_pledges_count(front);
        lemma_pledges_push(front, entry);
        assert(pledges(entries).dom() =~= pledges(front).dom().insert(entry.0@));
        assert(!pledges(front).dom().contains(entry.0@));
    }
}

/// A campaign as the registry stores it.
pub struct Campaign {
    campaign_id: u64,
    name: String,
    owner: String,
    funding_goal: u128,
    total_funds: u128,
    contributions: Vec<(String, u128)>,
    deadline: u64,
    is_completed: bool,
    image_url: String,
}

impl View for Campaign {
    type V = CampaignModel;

    closed spec fn view(&self) -> CampaignModel {
        CampaignModel {
            campaign_id: self.campaign_id as nat,
            name: self.name@,
            owner: self.owner@,
            funding_goal: self.funding_goal as nat,
            total_funds: self.total_funds as nat,
            contributions: pledges(self.contributions@),
            deadline: self.deadline as nat,
            is_completed: self.is_completed,
            image_url: self.image_url@,
        }
    }
}

impl Campaign {
    /// The stored campaign is sound: its goal is positive, and its list of
    /// pledges has one entry for each account, none empty, none of the owner.
    pub closed spec fn wf(&self) -> bool {
        &&& self.funding_goal > 0
        &&& distinct_accounts(self.contributions@)
        &&& forall|i: int|
            0 <= i < self.contributions@.len() ==> {
                &&& (#[trigger] self.contributions@[i]).1 > 0
                &&& self.contributions@[i].0@ != self.owner@
            }
    }

    /// A sound stored campaign is a well-formed campaign.
    pub proof fn lemma_view_wf(&self)
        requires
            self.wf(),
        ensures
            self@.wf(),
    {
        let entries = self.contributions@;
        lemma_pledges_count(entries);
        assert forall|who: Seq<char>| #[trigger]
            self@.contributions.contains_key(who) implies 0 < self@.contributions[who]
            <= u128::MAX by {
            let i = entry_of(entries, who);
            lemma_pledge_at(entries, i);
        }
        if self@.contributions.contains_key(self.owner@) {
            let i = entry_of(entries, self.owner@);
            assert(entries[i].0@ != self.owner@);
        }
    }

    /// A new campaign: active, without funds, pledges or image.
    pub(crate) fn new(
        campaign_id: u64,
        name: String,
        owner: String,
        funding_goal: u128,
        deadline: u64,
    ) -> (campaign: Campaign)
        requires
            funding_goal > 0,
        ensures
            campaign.wf(),
            campaign@ == CampaignModel::launch(
                campaign_id as nat,
                name@,
                owner@,
                funding_goal as nat,
                deadline as nat,
            ),
    {
        let campaign = Campaign {
            campaign_id,
            name,
            owner,
            funding_goal,
            total_funds: 0,
            contributions: Vec::new(),
            deadline,
            is_completed: false,
            image_url: String::new(),
        };
        proof {
            assert(campaign@.contributions =~= Map::<Seq<char>, nat>::empty());
        }
        campaign
    }

    /// Where in the list the pledge of `who` stands, if there is one.
    fn position_of(&self, who: &String) -> (found: Option<usize>)
        ensures
            match found {
                Some(i) => i < self.contributions@.len() && self.contributions@[i as int].0@
                    == who@,
                None => !has_entry(self.contributions@, who@),
            },
    {
        let mut i: usize = 0;
        while i < self.contributions.len()
            invariant
                i <= self.contributions@.len(),
                forall|j: int| 0 <= j < i ==> (#[trigger] self.contributions@[j]).0@ != who@,
            decreases self.contributions@.len() - i,
        {
            if self.contributions[i].0 == *who {
                return Some(i);
            }
            i += 1;
        }
        None
    }

    /// Takes a pledge of `amount` from `caller` at time `now`.
    ///
    /// The pledge is refused with `InvalidState` on a closed campaign, else
    /// with `DeadlinePassed` after the deadline, else with `InvalidAmount`
    /// where it is zero, else with `Unauthorized` where the caller is the
    /// owner. An accepted pledge is added to the funds and to what the
    /// caller had pledged before, each sum stopping at `u128::MAX`.
    pub fn contribute(&mut self, caller: &String, amount: u128, now: u64) -> (outcome: Result<
        (),
        CampaignError,
    >)
        requires
            old(self).wf(),
        ensures
            final(self).wf(),
            match old(self)@.contribute(caller@, amount as nat, now as nat) {
                Ok(next) => outcome == Ok::<(), CampaignError>(()) && final(self)@ == next,
                Err(e) => outcome == Err::<(), CampaignError>(e) && final(self)@ == old(self)@,
            },
    {
        if self.is_completed {
            return Err(CampaignError::InvalidState);
        }
        if now > self.deadline {
            return Err(CampaignError::DeadlinePassed);
        }
        if token_is_zero(amount) {
            return Err(CampaignError::InvalidAmount);
        }
        if *caller == self.owner {
            return Err(CampaignError::Unauthorized);
        }
        self.total_funds = token_saturating_add(self.total_funds, amount);
        match self.position_of(caller) {
            Some(i) => {
                let before: u128 = self.contributions[i].1;
                let pledged: u128 = token_saturating_add(before, amount);
                proof {
                    lemma_pledge_at(old(self).contributions@, i as int);
                    lemma_pledges_update(
                        old(self).contributions@,
                        i as int,
                        (old(self).contributions@[i as int].0, pledged),
                    );
                }
                self.contributions[i].1 = pledged;
            },
            None => {
                let account = caller.clone();
                proof {
                    lemma_pledges_push(old(self).contributions@, (account, amount));
                }
                self.contributions.push((account, amount));
            },
        }
        Ok(())
    }

    /// Closes the campaign for `caller`.
    ///
    /// Refused with `Unauthorized` for anyone but the owner, else with
    /// `InvalidState` where the campaign is closed already. Whether the goal
    /// was met or the deadline has passed plays no part.
    pub fn finalize(&mut self, caller: &String) -> (outcome: Result<(), CampaignError>)
        requires
            old(self).wf(),
        ensures
            final(self).wf(),
            match old(self)@.finalize(caller@) {
                Ok(next) => outcome == Ok::<(), CampaignError>(()) && final(self)@ == next,
                Err(e) => outcome == Err::<(), CampaignError>(e) && final(self)@ == old(self)@,
            },
    {
        if *caller != self.owner {
            return Err(CampaignError::Unauthorized);
        }
        if self.is_completed {
            return Err(CampaignError::InvalidState);
        }
        self.is_completed = true;
        Ok(())
    }

    /// First phase of a withdrawal: `caller` asks for `amount`, or for all
    /// the funds where `amount` is `None`.
    ///
    /// Refused with `InvalidState` while the campaign is active, else with
    /// `Unauthorized` for anyone but the owner, else with `InsufficientFunds`
    /// where the campaign holds less. An accepted request yields the transfer
    /// to make, to the owner. The funds stay as they are until
    /// `confirm_withdrawal` hears that the transfer succeeded, so a second
    /// request made before then is judged against the same funds.
    pub fn request_withdrawal(&self, caller: &String, amount: Option<u128>) -> (outcome: Result<
        Transfer,
        CampaignError,
    >)
        requires
            self.wf(),
        ensures
            match self@.request_withdrawal(caller@, amount_of(amount)) {
                Ok(wanted) => outcome matches Ok(transfer) && transfer.recipient@ == self@.owner
                    && transfer.amount == wanted,
                Err(e) => outcome matches Err(refusal) && refusal == e,
            },
    {
        if !self.is_completed {
            return Err(CampaignError::InvalidState);
        }
        if *caller != self.owner {
            return Err(CampaignError::Unauthorized);
        }
        let wanted: u128 = match amount {
            Some(a) => a,
            None => self.total_funds,
        };
        if wanted > self.total_funds {
            return Err(CampaignError::InsufficientFunds);
        }
        Ok(Transfer { recipient: self.owner.clone(), amount: wanted })
    }

    /// Second phase of a withdrawal: the transfer of `amount` ended in
    /// `outcome`.
    ///
    /// After a transfer that succeeded the amount leaves the funds, which
    /// stop at zero. After one that failed the campaign is as it was.
    pub fn confirm_withdrawal(&mut self, amount: u128, outcome: TransferOutcome)
        requires
            old(self).wf(),
        ensures
            final(self).wf(),
            final(self)@ == old(self)@.confirm_withdrawal(amount as nat, outcome),
    {
        match outcome {
            TransferOutcome::Succeeded => {
                self.total_funds = token_saturating_sub(self.total_funds, amount);
            },
            TransferOutcome::Failed => {},
        }
    }

    /// Gives `caller` their pledge back at time `now`.
    ///
    /// Refused with `InvalidState` while the campaign is active, else with
    /// `DeadlineNotPassed` before the deadline, else with `Unauthorized` for
    /// the owner, else with `GoalMet` where the funds reach the goal, else
    /// with `NoContribution` where the caller has no pledge. An accepted
    /// refund removes the caller's pledge, takes its amount out of the funds,
    /// which stop at zero, and yields the transfer to make, to the caller.
    pub fn refund(&mut self, caller: &String, now: u64) -> (outcome: Result<Transfer, CampaignError>)
        requires
            old(self).wf(),
        ensures
            final(self).wf(),
            match old(self)@.refund(caller@, now as nat) {
                Ok((next, amount)) => outcome matches Ok(transfer) && transfer.recipient@
                    == caller@ && transfer.amount == amount && final(self)@ == next,
                Err(e) => outcome matches Err(refusal) && refusal == e && final(self)@ == old(
                    self,
                )@,
            },
    {
        if !self.is_completed {
            return Err(CampaignError::InvalidState);
        }
        if now < self.deadline {
            return Err(CampaignError::DeadlineNotPassed);
        }
        if *caller == self.owner {
            return Err(CampaignError::Unauthorized);
        }
        if self.total_funds >= self.funding_goal {
            return Err(CampaignError::GoalMet);
        }
        match self.position_of(caller) {
            None => Err(CampaignError::NoContribution),
            Some(i) => {
                let amount: u128 = self.contributions[i].1;
                proof {
                    lemma_pledge_at(self.contributions@, i as int);
                    lemma_pledges_swap_remove(self.contributions@, i as int);
                }
                if token_is_zero(amount) {
                    return Err(CampaignError::InvalidAmount);
                }
                let entry = self.contributions.swap_remove(i);
                self.total_funds = token_saturating_sub(self.total_funds, amount);
                Ok(Transfer { recipient: entry.0, amount })
            },
        }
    }

    /// Replaces the campaign's image for `caller`. Refused with
    /// `Unauthorized` for anyone but the owner.
    pub fn set_image_url(&mut self, caller: &String, image_url: String) -> (outcome: Result<
        (),
        CampaignError,
    >)
        requires
            old(self).wf(),
        ensures
            final(self).wf(),
            match old(self)@.set_image_url(caller@, image_url@) {
                Ok(next) => outcome == Ok::<(), CampaignError>(()) && final(self)@ == next,
                Err(e) => outcome == Err::<(), CampaignError>(e) && final(self)@ == old(self)@,
            },
    {
        if *caller != self.owner {
            return Err(CampaignError::Unauthorized);
        }
        self.image_url = image_url;
        Ok(())
    }

    /// The funds above the goal, or zero where the goal is not exceeded.
    pub fn excess_funds(&self) -> (excess: u128)
        ensures
            excess == self@.excess_funds(),
    {
        if self.total_funds > self.funding_goal {
            token_saturating_sub(self.total_funds, self.funding_goal)
        } else {
            0
        }
    }
}

impl Campaign {
    /// The identifier the campaign was created under.
    pub fn campaign_id(&self) -> (id: u64)
        ensures
            id == self@.campaign_id,
    {
        self.campaign_id
    }

    /// The campaign's name.
    pub fn name(&self) -> (name: &String)
        ensures
            name@ == self@.name,
    {
        &self.name
    }

    /// The account that created the campaign.
    pub fn owner(&self) -> (owner: &String)
        ensures
            owner@ == self@.owner,
    {
        &self.owner
    }

    /// The amount the campaign aims for.
    pub fn funding_goal(&self) -> (goal: u128)
        ensures
            goal == self@.funding_goal,
    {
        self.funding_goal
    }

    /// The funds the campaign holds.
    pub fn total_funds(&self) -> (funds: u128)
        ensures
            funds == self@.total_funds,
    {
        self.total_funds
    }

    /// The pledges, one entry for each account that has one, in no
    /// particular order.
    pub fn contributions(&self) -> (list: Vec<(String, u128)>)
        requires
            self.wf(),
        ensures
            distinct_accounts(list@),
            pledges(list@) == self@.contributions,
    {
        copy_entries(&self.contributions)
    }

    /// How many accounts have a pledge.
    pub fn total_contributors(&self) -> (count: u64)
        requires
            self.wf(),
        ensures
            count == self@.contributions.len(),
    {
        proof {
            lemma_pledges_count(self.contributions@);
        }
        self.contributions.len() as u64
    }

    /// The instant after which no pledge is taken.
    pub fn deadline(&self) -> (deadline: u64)
        ensures
            deadline == self@.deadline,
    {
        self.deadline
    }

    /// Whether the owner has closed the campaign.
    pub fn is_completed(&self) -> (completed: bool)
        ensures
            completed == self@.is_completed,
    {
        self.is_completed
    }

    /// The address of the campaign's image; empty until the owner sets one.
    pub fn image_url(&self) -> (url: &String)
        ensures
            url@ == self@.image_url,
    {
        &self.image_url
    }
}

/// A copy of a list of pledges, entry for entry.
fn copy_entries(entries: &Vec<(String, u128)>) -> (copy: Vec<(String, u128)>)
    ensures
        copy@ == entries@,
{
    let mut copy: Vec<(String, u128)> = Vec::new();
    let mut i: usize = 0;
    while i < entries.len()
        invariant
            i <= entries@.len(),
            copy@ == entries@.take(i as int),
        decreases entries@.len() - i,
    {
        let account = entries[i].0.clone();
        let amount: u128 = entries[i].1;
        copy.push((account, amount));
        assert(entries@.take(i as int).push(entries@[i as int]) == entries@.take(i + 1));
        i += 1;
    }
    assert(entries@.take(entries@.len() as int) == entries@);
    copy
}

/// Whether a list of pledges has one entry for each account, none empty,
/// none of `owner`.
fn entries_are_sound(entries: &Vec<(String, u128)>, owner: &String) -> (sound: bool)
    ensures
        sound == (distinct_accounts(entries@) && forall|i: int|
            0 <= i < entries@.len() ==> (#[trigger] entries@[i]).1 > 0 && entries@[i].0@
                != owner@),
{
    let mut i: usize = 0;
    while i < entries.len()
        invariant
            i <= entries@.len(),
            forall|a: int, b: int|
                0 <= a < b < i ==> (#[trigger] entries@[a]).0@ != (#[trigger] entries@[b]).0@,
            forall|k: int|
                0 <= k < i ==> (#[trigger] entries@[k]).1 > 0 && entries@[k].0@ != owner@,
        decreases entries@.len() - i,
    {
        if token_is_zero(entries[i].1) || entries[i].0 == *owner {
            assert(!(entries@[i as int].1 > 0 && entries@[i as int].0@ != owner@));
            return false;
        }
        let mut j: usize = 0;
        while j < i
            invariant
                j <= i < entries@.len(),
                forall|a: int| 0 <= a < j ==> (#[trigger] entries@[a]).0@ != entries@[i as int].0@,
            decreases i - j,
        {
            if entries[j].0 == entries[i].0 {
                assert(entries@[j as int].0@ == entries@[i as int].0@);
                return false;
            }
            j += 1;
        }
        i += 1;
    }
    true
}

/// A campaign as callers see it: every field of the stored campaign, with
/// the pledges as a list of accounts and amounts. The order of the list
/// carries no meaning.
#[derive(Clone, Debug, PartialEq, Eq)]
pub struct CampaignDTO {
    pub campaign_id: u64,
    pub name: String,
    pub owner: String,
    pub funding_goal: u128,
    pub total_funds: u128,
    pub contributions: Vec<(String, u128)>,
    pub deadline: u64,
    pub is_completed: bool,
    pub image_url: String,
}

impl View for CampaignDTO {
    type V = CampaignModel;

    open spec fn view(&self) -> CampaignModel {
        CampaignModel {
            campaign_id: self.campaign_id as nat,
            name: self.name@,
            owner: self.owner@,
            funding_goal: self.funding_goal as nat,
            total_funds: self.total_funds as nat,
            contributions: pledges(self.contributions@),
            deadline: self.deadline as nat,
            is_completed: self.is_completed,
            image_url: self.image_url@,
        }
    }
}

impl CampaignDTO {
    /// What holds of the snapshot of every stored campaign: a positive goal,
    /// and a list with one entry for each account, none empty, none of the
    /// owner.
    pub open spec fn wf(&self) -> bool {
        &&& self.funding_goal > 0
        &&& distinct_accounts(self.contributions@)
        &&& forall|i: int|
            0 <= i < self.contributions@.len() ==> {
                &&& (#[trigger] self.contributions@[i]).1 > 0
                &&& self.contributions@[i].0@ != self.owner@
            }
    }
}

impl vstd::std_specs::convert::FromSpecImpl<&Campaign> for CampaignDTO {
    /// The conversion is specified by what `from` itself ensures.
    open spec fn obeys_from_spec() -> bool {
        false
    }

    open spec fn from_spec(campaign: &Campaign) -> CampaignDTO {
        arbitrary()
    }
}

impl From<&Campaign> for CampaignDTO {
    /// The snapshot of a stored campaign.
    fn from(campaign: &Campaign) -> (snapshot: CampaignDTO)
        ensures
            snapshot@ == campaign@,
            campaign.wf() ==> snapshot.wf(),
    {
        CampaignDTO {
            campaign_id: campaign.campaign_id,
            name: campaign.name.clone(),
            owner: campaign.owner.clone(),
            funding_goal: campaign.funding_goal,
            total_funds: campaign.total_funds,
            contributions: copy_entries(&campaign.contributions),
            deadline: campaign.deadline,
            is_completed: campaign.is_completed,
            image_url: campaign.image_url.clone(),
        }
    }
}

impl Campaign {
    /// The stored campaign that a snapshot shows, where there is one: a
    /// snapshot with a zero goal, with two entries for one account, with an
    /// empty entry or with an entry of the owner shows none.
    pub fn restore(snapshot: &CampaignDTO) -> (restored: Option<Campaign>)
        ensures
            match restored {
                Some(campaign) => snapshot.wf() && campaign.wf() && campaign@ == snapshot@,
                None => !snapshot.wf(),
            },
    {
        if snapshot.funding_goal == 0 {
            return None;
        }
        if !entries_are_sound(&snapshot.contributions, &snapshot.owner) {
            return None;
        }
        Some(
            Campaign {
                campaign_id: snapshot.campaign_id,
                name: snapshot.name.clone(),
                owner: snapshot.owner.clone(),
                funding_goal: snapshot.funding_goal,
                total_funds: snapshot.total_funds,
                contributions: copy_entries(&snapshot.contributions),
                deadline: snapshot.deadline,
                is_completed: snapshot.is_completed,
                image_url: snapshot.image_url.clone(),
            },
        )
    }
}

} // verus!
