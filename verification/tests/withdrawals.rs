use crowdfunding::{CampaignError, Contract, Transfer, TransferOutcome};

const START: u64 = 50;

fn account(name: &str) -> String {
    name.to_string()
}

fn funded(amount: u128, closed: bool) -> (Contract, u64) {
    let mut contract = Contract::new();
    let owner = account("owner.near");
    let id = contract.create_campaign(account("library"), 100, 60, &owner, START).unwrap();
    if amount > 0 {
        contract.contribute(id, &account("bob.near"), amount, START).unwrap();
    }
    if closed {
        contract.finalize_campaign(id, &owner).unwrap();
    }
    (contract, id)
}

#[test]
fn withdrawal_from_an_active_campaign_is_refused() {
    let (mut contract, id) = funded(150, false);
    assert_eq!(
        contract.withdraw_funds(id, &account("owner.near"), Some(1)),
        Err(CampaignError::InvalidState)
    );
    assert_eq!(
        contract.withdraw_funds(id, &account("bob.near"), Some(1_000)),
        Err(CampaignError::InvalidState)
    );
}

#[test]
fn withdrawal_by_anyone_but_the_owner_is_refused() {
    let (mut contract, id) = funded(150, true);
    assert_eq!(
        contract.withdraw_funds(id, &account("bob.near"), Some(1)),
        Err(CampaignError::Unauthorized)
    );
    assert_eq!(
        contract.withdraw_funds(id, &account("bob.near"), Some(151)),
        Err(CampaignError::Unauthorized)
    );
}

#[test]
fn withdrawal_above_the_funds_is_refused() {
    let (mut contract, id) = funded(150, true);
    let owner = account("owner.near");
    assert_eq!(
        contract.withdraw_funds(id, &owner, Some(151)),
        Err(CampaignError::InsufficientFunds)
    );
    assert_eq!(
        contract.withdraw_funds(id, &owner, Some(150)),
        Ok(Transfer { recipient: account("owner.near"), amount: 150 })
    );
}

#[test]
fn withdrawal_without_amount_asks_for_everything() {
    let (mut contract, id) = funded(150, true);
    let owner = account("owner.near");
    assert_eq!(
        contract.withdraw_funds(id, &owner, None),
        Ok(Transfer { recipient: account("owner.near"), amount: 150 })
    );
    let (mut empty, other) = funded(0, true);
    assert_eq!(
        empty.withdraw_funds(other, &owner, None),
        Ok(Transfer { recipient: account("owner.near"), amount: 0 })
    );
    assert_eq!(
        empty.withdraw_funds(other, &owner, Some(0)),
        Ok(Transfer { recipient: account("owner.near"), amount: 0 })
    );
}

#[test]
fn request_leaves_the_funds_until_confirmation() {
    let (mut contract, id) = funded(150, true);
    let owner = account("owner.near");
    let before = contract.get_all_campaigns();
    contract.withdraw_funds(id, &owner, Some(100)).unwrap();
    assert_eq!(contract.get_all_campaigns(), before);
    assert_eq!(contract.post_withdraw(id, 100, TransferOutcome::Succeeded), Ok(()));
    assert_eq!(contract.get_total_funds(id), Ok(50));
    assert_eq!(
        contract.get_contributions(id),
        Ok(vec![(account("bob.near"), 150)])
    );
}

#[test]
fn failed_confirmation_changes_nothing() {
    let (mut contract, id) = funded(150, true);
    let before = contract.get_all_campaigns();
    assert_eq!(contract.post_withdraw(id, 100, TransferOutcome::Failed), Ok(()));
    assert_eq!(contract.get_all_campaigns(), before);
}

#[test]
fn overlapping_requests_are_both_granted_and_funds_stop_at_zero() {
    let (mut contract, id) = funded(150, true);
    let owner = account("owner.near");
    let first = contract.withdraw_funds(id, &owner, Some(100)).unwrap();
    let second = contract.withdraw_funds(id, &owner, Some(100)).unwrap();
    assert_eq!(first.amount + second.amount, 200);
    contract.post_withdraw(id, first.amount, TransferOutcome::Succeeded).unwrap();
    assert_eq!(contract.get_total_funds(id), Ok(50));
    contract.post_withdraw(id, second.amount, TransferOutcome::Succeeded).unwrap();
    assert_eq!(contract.get_total_funds(id), Ok(0));
}

#[test]
fn confirmation_is_taken_on_an_active_campaign_too() {
    let (mut contract, id) = funded(150, false);
    assert_eq!(contract.post_withdraw(id, 20, TransferOutcome::Succeeded), Ok(()));
    assert_eq!(contract.get_total_funds(id), Ok(130));
    assert_eq!(contract.is_completed(id), Ok(false));
}
