use crowdfunding::ledger::{deadline_fits, NANOS_PER_SECOND};
use crowdfunding::{Campaign, CampaignDTO, CampaignError, Contract};

fn account(name: &str) -> String {
    name.to_string()
}

#[test]
fn new_registry_is_empty() {
    let contract = Contract::new();
    assert!(contract.get_all_campaigns().is_empty());
    assert_eq!(contract.get_campaign(0).map(|c| c.campaign_id), Err(CampaignError::NotFound));
    let by_default = Contract::default();
    assert!(by_default.get_all_campaigns().is_empty());
}

#[test]
fn creation_rejects_zero_goal() {
    let mut contract = Contract::new();
    assert_eq!(
        contract.create_campaign(account("x"), 0, 60, &account("alice.near"), 5),
        Err(CampaignError::InvalidAmount)
    );
    assert!(contract.get_all_campaigns().is_empty());
}

#[test]
fn creation_rejects_zero_duration() {
    let mut contract = Contract::new();
    assert_eq!(
        contract.create_campaign(account("x"), 1, 0, &account("alice.near"), 5),
        Err(CampaignError::InvalidDuration)
    );
    assert!(contract.get_all_campaigns().is_empty());
}

#[test]
fn zero_goal_is_reported_before_zero_duration() {
    let mut contract = Contract::new();
    assert_eq!(
        contract.create_campaign(account("x"), 0, 0, &account("alice.near"), 5),
        Err(CampaignError::InvalidAmount)
    );
}

#[test]
fn created_campaign_is_active_and_empty() {
    let mut contract = Contract::new();
    let id = contract
        .create_campaign(account("well"), 500, 3, &account("alice.near"), 1_000)
        .unwrap();
    let snapshot = contract.get_campaign(id).unwrap();
    assert_eq!(
        snapshot,
        CampaignDTO {
            campaign_id: 0,
            name: account("well"),
            owner: account("alice.near"),
            funding_goal: 500,
            total_funds: 0,
            contributions: vec![],
            deadline: 1_000 + 3 * NANOS_PER_SECOND,
            is_completed: false,
            image_url: String::new(),
        }
    );
    assert_eq!(contract.get_deadline(id), Ok(3_000_001_000));
}

#[test]
fn identifiers_count_up_from_zero() {
    let mut contract = Contract::new();
    for expected in 0..4u64 {
        let id = contract
            .create_campaign(account("n"), 1 + expected as u128, 10, &account("alice.near"), 0)
            .unwrap();
        assert_eq!(id, expected);
    }
    let all = contract.get_all_campaigns();
    assert_eq!(all.len(), 4);
    for (place, snapshot) in all.iter().enumerate() {
        assert_eq!(snapshot.campaign_id, place as u64);
        assert_eq!(snapshot.funding_goal, 1 + place as u128);
    }
}

#[test]
fn refused_creation_uses_no_identifier() {
    let mut contract = Contract::new();
    let owner = account("alice.near");
    assert_eq!(contract.create_campaign(account("a"), 5, 10, &owner, 0), Ok(0));
    assert!(contract.create_campaign(account("b"), 0, 10, &owner, 0).is_err());
    assert_eq!(contract.create_campaign(account("c"), 5, 10, &owner, 0), Ok(1));
}

#[test]
fn calls_touch_only_the_named_campaign() {
    let mut contract = Contract::new();
    let alice = account("alice.near");
    let first = contract.create_campaign(account("a"), 50, 10, &alice, 0).unwrap();
    let second = contract.create_campaign(account("b"), 60, 10, &alice, 0).unwrap();
    let untouched = contract.get_campaign(first).unwrap();
    contract.contribute(second, &account("bob.near"), 7, 1).unwrap();
    contract.finalize_campaign(second, &alice).unwrap();
    assert_eq!(contract.get_campaign(first).unwrap(), untouched);
    assert_eq!(contract.get_total_funds(second), Ok(7));
}

#[test]
fn every_call_on_a_missing_campaign_is_not_found() {
    let mut contract = Contract::new();
    let alice = account("alice.near");
    contract.create_campaign(account("a"), 50, 10, &alice, 0).unwrap();
    let missing = 1;
    assert_eq!(contract.contribute(missing, &alice, 1, 0), Err(CampaignError::NotFound));
    assert_eq!(contract.finalize_campaign(missing, &alice), Err(CampaignError::NotFound));
    assert_eq!(
        contract.withdraw_funds(missing, &alice, None).map(|t| t.amount),
        Err(CampaignError::NotFound)
    );
    assert_eq!(
        contract.post_withdraw(missing, 1, crowdfunding::TransferOutcome::Succeeded),
        Err(CampaignError::NotFound)
    );
    assert_eq!(contract.refund(missing, &alice, 0).map(|t| t.amount), Err(CampaignError::NotFound));
    assert_eq!(
        contract.set_image_url(missing, &alice, account("u")),
        Err(CampaignError::NotFound)
    );
    assert_eq!(contract.get_excess_funds(missing), Err(CampaignError::NotFound));
    assert_eq!(contract.get_owner(missing), Err(CampaignError::NotFound));
    assert_eq!(contract.get_funding_goal(missing), Err(CampaignError::NotFound));
    assert_eq!(contract.get_total_funds(missing), Err(CampaignError::NotFound));
    assert_eq!(contract.get_contributions(missing), Err(CampaignError::NotFound));
    assert_eq!(contract.get_total_contributors(missing), Err(CampaignError::NotFound));
    assert_eq!(contract.get_deadline(missing), Err(CampaignError::NotFound));
    assert_eq!(contract.is_completed(missing), Err(CampaignError::NotFound));
    assert_eq!(contract.get_image_url(missing), Err(CampaignError::NotFound));
    assert_eq!(contract.get_campaign_details(missing), Err(CampaignError::NotFound));
    assert_eq!(contract.get_campaign(u64::MAX).map(|c| c.campaign_id), Err(CampaignError::NotFound));
}

#[test]
fn details_list_the_fields_in_order() {
    let mut contract = Contract::new();
    let alice = account("alice.near");
    let id = contract.create_campaign(account("bridge"), 40, 2, &alice, 100).unwrap();
    contract.contribute(id, &account("bob.near"), 9, 100).unwrap();
    contract.contribute(id, &account("carol.near"), 4, 101).unwrap();
    contract.set_image_url(id, &alice, account("https://example.org/b.png")).unwrap();
    assert_eq!(
        contract.get_campaign_details(id),
        Ok((
            account("alice.near"),
            account("bridge"),
            40,
            13,
            2_000_000_100,
            2,
            false,
            account("https://example.org/b.png"),
        ))
    );
}

#[test]
fn only_the_owner_sets_the_image() {
    let mut contract = Contract::new();
    let alice = account("alice.near");
    let id = contract.create_campaign(account("bridge"), 40, 2, &alice, 100).unwrap();
    assert_eq!(contract.get_image_url(id), Ok(String::new()));
    assert_eq!(
        contract.set_image_url(id, &account("bob.near"), account("evil")),
        Err(CampaignError::Unauthorized)
    );
    assert_eq!(contract.get_image_url(id), Ok(String::new()));
    assert_eq!(contract.set_image_url(id, &alice, account("pic")), Ok(()));
    assert_eq!(contract.get_image_url(id), Ok(account("pic")));
    contract.finalize_campaign(id, &alice).unwrap();
    assert_eq!(contract.set_image_url(id, &alice, account("pic2")), Ok(()));
    assert_eq!(contract.get_image_url(id), Ok(account("pic2")));
}

#[test]
fn deadline_has_to_fit_the_clock() {
    assert!(deadline_fits(0, 1));
    assert!(deadline_fits(u64::MAX - NANOS_PER_SECOND, 1));
    assert!(!deadline_fits(u64::MAX - NANOS_PER_SECOND + 1, 1));
    assert!(!deadline_fits(0, u64::MAX));
    assert!(deadline_fits(u64::MAX, 0));
    assert!(deadline_fits(615, 18_446_744_073));
    assert!(!deadline_fits(616, 18_446_744_074));
}

#[test]
fn registry_survives_a_round_trip_through_snapshots() {
    let mut contract = Contract::new();
    let alice = account("alice.near");
    let a = contract.create_campaign(account("a"), 50, 10, &alice, 0).unwrap();
    let b = contract.create_campaign(account("b"), 60, 10, &account("dave.near"), 5).unwrap();
    contract.contribute(a, &account("bob.near"), 7, 1).unwrap();
    contract.contribute(a, &account("carol.near"), 8, 1).unwrap();
    contract.finalize_campaign(a, &alice).unwrap();
    contract.set_image_url(b, &account("dave.near"), account("pic")).unwrap();
    let snapshots = contract.get_all_campaigns();
    let mut restored = Contract::restore(&snapshots).unwrap();
    assert_eq!(restored.get_all_campaigns(), snapshots);
    assert_eq!(restored.create_campaign(account("c"), 1, 1, &alice, 0), Ok(2));
    assert_eq!(
        restored.contribute(a, &account("erin.near"), 1, 1),
        Err(CampaignError::InvalidState)
    );
}

fn snapshot(id: u64, owner: &str, goal: u128, pledges: Vec<(&str, u128)>) -> CampaignDTO {
    CampaignDTO {
        campaign_id: id,
        name: account("n"),
        owner: account(owner),
        funding_goal: goal,
        total_funds: pledges.iter().map(|p| p.1).sum(),
        contributions: pledges.into_iter().map(|(who, amount)| (account(who), amount)).collect(),
        deadline: 99,
        is_completed: false,
        image_url: String::new(),
    }
}

#[test]
fn restore_refuses_unsound_snapshots() {
    let good = snapshot(0, "alice.near", 5, vec![("bob.near", 1), ("carol.near", 2)]);
    assert!(Contract::restore(&vec![good.clone()]).is_some());
    assert!(Contract::restore(&vec![]).is_some());
    let wrong_place = snapshot(1, "alice.near", 5, vec![]);
    assert!(Contract::restore(&vec![wrong_place]).is_none());
    let no_goal = snapshot(0, "alice.near", 0, vec![]);
    assert!(Contract::restore(&vec![no_goal]).is_none());
    let twice = snapshot(0, "alice.near", 5, vec![("bob.near", 1), ("carol.near", 2), ("bob.near", 3)]);
    assert!(Contract::restore(&vec![twice]).is_none());
    let empty_pledge = snapshot(0, "alice.near", 5, vec![("bob.near", 0)]);
    assert!(Contract::restore(&vec![empty_pledge]).is_none());
    let own_pledge = snapshot(0, "alice.near", 5, vec![("bob.near", 1), ("alice.near", 2)]);
    assert!(Contract::restore(&vec![own_pledge]).is_none());
    let second_bad = snapshot(1, "alice.near", 0, vec![]);
    assert!(Contract::restore(&vec![good, second_bad]).is_none());
}

#[test]
fn a_single_campaign_can_be_restored_and_used() {
    let shown = snapshot(4, "alice.near", 5, vec![("bob.near", 1), ("carol.near", 2)]);
    let mut campaign = Campaign::restore(&shown).unwrap();
    assert_eq!(campaign.campaign_id(), 4);
    assert_eq!(campaign.name(), "n");
    assert_eq!(campaign.owner(), "alice.near");
    assert_eq!(campaign.funding_goal(), 5);
    assert_eq!(campaign.total_funds(), 3);
    assert_eq!(campaign.deadline(), 99);
    assert!(!campaign.is_completed());
    assert_eq!(campaign.image_url(), "");
    assert_eq!(campaign.total_contributors(), 2);
    assert_eq!(campaign.excess_funds(), 0);
    assert_eq!(CampaignDTO::from(&campaign), shown);
    assert_eq!(campaign.contribute(&account("bob.near"), 4, 99), Ok(()));
    assert_eq!(campaign.contribute(&account("bob.near"), 4, 100), Err(CampaignError::DeadlinePassed));
    assert_eq!(
        campaign.contributions(),
        vec![(account("bob.near"), 5), (account("carol.near"), 2)]
    );
    assert_eq!(campaign.excess_funds(), 2);
    assert_eq!(campaign.finalize(&account("alice.near")), Ok(()));
    assert!(campaign.is_completed());
    let transfer = campaign.request_withdrawal(&account("alice.near"), None).unwrap();
    assert_eq!(transfer.amount, 7);
    campaign.confirm_withdrawal(7, crowdfunding::TransferOutcome::Succeeded);
    assert_eq!(campaign.total_funds(), 0);
    assert_eq!(campaign.refund(&account("carol.near"), 99).map(|t| t.amount), Ok(2));
    assert_eq!(campaign.set_image_url(&account("alice.near"), account("p")), Ok(()));
    assert_eq!(campaign.image_url(), "p");
}
