use crowdfunding::{CampaignError, Contract, Transfer, TransferOutcome};

const GOAL: u128 = 100;
const START: u64 = 50;
const DEADLINE: u64 = START + 60 * 1_000_000_000;

fn account(name: &str) -> String {
    name.to_string()
}

fn two_pledges(bob: u128, carol: u128) -> (Contract, u64) {
    let mut contract = Contract::new();
    let id = contract
        .create_campaign(account("library"), GOAL, 60, &account("owner.near"), START)
        .unwrap();
    contract.contribute(id, &account("bob.near"), bob, START).unwrap();
    contract.contribute(id, &account("carol.near"), carol, START).unwrap();
    (contract, id)
}

fn amount_of(outcome: Result<Transfer, CampaignError>) -> Result<u128, CampaignError> {
    outcome.map(|transfer| transfer.amount)
}

#[test]
fn refund_from_an_active_campaign_is_refused() {
    let (mut contract, id) = two_pledges(10, 20);
    assert_eq!(
        amount_of(contract.refund(id, &account("bob.near"), DEADLINE + 1)),
        Err(CampaignError::InvalidState)
    );
    assert_eq!(contract.get_total_funds(id), Ok(30));
}

#[test]
fn refund_before_the_deadline_is_refused() {
    let (mut contract, id) = two_pledges(10, 20);
    contract.finalize_campaign(id, &account("owner.near")).unwrap();
    assert_eq!(
        amount_of(contract.refund(id, &account("bob.near"), DEADLINE - 1)),
        Err(CampaignError::DeadlineNotPassed)
    );
    assert_eq!(amount_of(contract.refund(id, &account("bob.near"), DEADLINE)), Ok(10));
}

#[test]
fn refund_to_the_owner_is_refused() {
    let (mut contract, id) = two_pledges(10, 20);
    contract.finalize_campaign(id, &account("owner.near")).unwrap();
    assert_eq!(
        amount_of(contract.refund(id, &account("owner.near"), DEADLINE)),
        Err(CampaignError::Unauthorized)
    );
}

#[test]
fn refund_after_a_met_goal_is_refused() {
    let (mut contract, id) = two_pledges(10, 90);
    contract.finalize_campaign(id, &account("owner.near")).unwrap();
    assert_eq!(
        amount_of(contract.refund(id, &account("bob.near"), DEADLINE)),
        Err(CampaignError::GoalMet)
    );
    assert_eq!(contract.get_total_funds(id), Ok(100));
    assert_eq!(contract.get_total_contributors(id), Ok(2));
}

#[test]
fn refund_without_a_pledge_is_refused() {
    let (mut contract, id) = two_pledges(10, 20);
    contract.finalize_campaign(id, &account("owner.near")).unwrap();
    assert_eq!(
        amount_of(contract.refund(id, &account("dave.near"), DEADLINE)),
        Err(CampaignError::NoContribution)
    );
}

#[test]
fn refusals_of_a_refund_come_in_a_fixed_order() {
    let (mut contract, id) = two_pledges(10, 90);
    let owner = account("owner.near");
    assert_eq!(amount_of(contract.refund(id, &owner, 0)), Err(CampaignError::InvalidState));
    contract.finalize_campaign(id, &owner).unwrap();
    assert_eq!(amount_of(contract.refund(id, &owner, 0)), Err(CampaignError::DeadlineNotPassed));
    assert_eq!(amount_of(contract.refund(id, &owner, DEADLINE)), Err(CampaignError::Unauthorized));
    assert_eq!(
        amount_of(contract.refund(id, &account("dave.near"), DEADLINE)),
        Err(CampaignError::GoalMet)
    );
}

#[test]
fn refund_removes_only_the_callers_pledge() {
    let (mut contract, id) = two_pledges(10, 20);
    contract.contribute(id, &account("dave.near"), 30, START).unwrap();
    contract.finalize_campaign(id, &account("owner.near")).unwrap();
    assert_eq!(
        contract.refund(id, &account("bob.near"), DEADLINE),
        Ok(Transfer { recipient: account("bob.near"), amount: 10 })
    );
    assert_eq!(contract.get_total_funds(id), Ok(50));
    let mut left = contract.get_contributions(id).unwrap();
    left.sort();
    assert_eq!(left, vec![(account("carol.near"), 20), (account("dave.near"), 30)]);
    assert_eq!(
        amount_of(contract.refund(id, &account("bob.near"), DEADLINE)),
        Err(CampaignError::NoContribution)
    );
    assert_eq!(amount_of(contract.refund(id, &account("dave.near"), DEADLINE + 9)), Ok(30));
    assert_eq!(amount_of(contract.refund(id, &account("carol.near"), DEADLINE + 9)), Ok(20));
    assert_eq!(contract.get_total_funds(id), Ok(0));
    assert_eq!(contract.get_contributions(id), Ok(vec![]));
}

#[test]
fn refund_after_a_withdrawal_stops_the_funds_at_zero() {
    let (mut contract, id) = two_pledges(10, 20);
    let owner = account("owner.near");
    contract.finalize_campaign(id, &owner).unwrap();
    contract.withdraw_funds(id, &owner, Some(25)).unwrap();
    contract.post_withdraw(id, 25, TransferOutcome::Succeeded).unwrap();
    assert_eq!(contract.get_total_funds(id), Ok(5));
    assert_eq!(amount_of(contract.refund(id, &account("carol.near"), DEADLINE)), Ok(20));
    assert_eq!(contract.get_total_funds(id), Ok(0));
    assert_eq!(amount_of(contract.refund(id, &account("bob.near"), DEADLINE)), Ok(10));
    assert_eq!(contract.get_total_funds(id), Ok(0));
}
