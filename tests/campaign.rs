use givehub::auth::{same_id, Address, Grant, Operation};
use givehub::campaign::{CampaignContract, CampaignError, CampaignStatus};

const LEDGER: Address = Address { id: 100 };
const DONATIONS: Address = Address { id: 200 };
const VERIFIER_APP: Address = Address { id: 300 };

fn donation_grant(ledger: &CampaignContract, id: [u8; 32], amount: i128) -> Grant {
    Grant {
        issuer: DONATIONS,
        ledger: ledger.address(),
        operation: Operation::RecordDonation,
        campaign_id: id,
        amount,
    }
}

fn release_grant(ledger: &CampaignContract, id: [u8; 32], amount: i128) -> Grant {
    Grant {
        issuer: VERIFIER_APP,
        ledger: ledger.address(),
        operation: Operation::ReleaseMilestoneFunds,
        campaign_id: id,
        amount,
    }
}

fn active_campaign(target: i128) -> (CampaignContract, Address, [u8; 32]) {
    let mut ledger = CampaignContract::new(LEDGER);
    let creator = Address { id: 1 };
    let id = [0u8; 32];
    ledger
        .initialize(
            creator,
            id,
            String::from("Test Campaign"),
            String::from("Test Description"),
            target,
            10,
        )
        .unwrap();
    ledger
        .set_authorized_contracts(creator, id, Some(DONATIONS), Some(VERIFIER_APP))
        .unwrap();
    ledger.activate(creator, id).unwrap();
    (ledger, creator, id)
}

#[test]
fn test_campaign_lifecycle() {
    let mut ledger = CampaignContract::new(LEDGER);
    let creator = Address { id: 1 };
    let campaign_id = [0u8; 32];

    let campaign = ledger
        .initialize(
            creator,
            campaign_id,
            String::from("Test Campaign"),
            String::from("Test Description"),
            1000,
            0,
        )
        .unwrap();
    assert_eq!(campaign.status, CampaignStatus::Draft);
    ledger
        .set_authorized_contracts(creator, campaign_id, Some(DONATIONS), Some(VERIFIER_APP))
        .unwrap();

    let active_campaign = ledger.activate(creator, campaign_id).unwrap();
    assert_eq!(active_campaign.status, CampaignStatus::Active);

    let g = donation_grant(&ledger, campaign_id, 600);
    let updated = ledger.add_donation(g, campaign_id, 600).unwrap();
    assert_eq!(updated.current_amount, 600);
    assert!(ledger.is_active(campaign_id).unwrap());

    let g = donation_grant(&ledger, campaign_id, 500);
    let funded = ledger.add_donation(g, campaign_id, 500).unwrap();
    assert_eq!(funded.status, CampaignStatus::Funded);

    let g = release_grant(&ledger, campaign_id, 1100);
    let completed = ledger.mark_milestone_completed(g, campaign_id, 1100).unwrap();
    assert_eq!(completed.status, CampaignStatus::Completed);
}

#[test]
fn initialize_sets_zero_accumulators_and_clock() {
    let mut ledger = CampaignContract::new(LEDGER);
    let c = ledger
        .initialize(Address { id: 5 }, [3u8; 32], String::from("t"), String::from("d"), 50, 77)
        .unwrap();
    assert_eq!(c.current_amount, 0);
    assert_eq!(c.released_amount, 0);
    assert_eq!(c.target_amount, 50);
    assert_eq!(c.created_at, 77);
    assert_eq!(c.creator, Address { id: 5 });
    assert_eq!(c.title, "t");
    assert_eq!(c.description, "d");
    assert_eq!(c.donation_contract, None);
    let stored = ledger.get([3u8; 32]).unwrap();
    assert_eq!(stored.title, "t");
    assert_eq!(ledger.creator([3u8; 32]), Ok(Address { id: 5 }));
    assert_eq!(ledger.status([3u8; 32]), Ok(CampaignStatus::Draft));
    assert_eq!(ledger.is_active([3u8; 32]), Ok(false));
}

#[test]
fn initialize_rejects_bad_target_and_duplicate_id() {
    let mut ledger = CampaignContract::new(LEDGER);
    let a = Address { id: 1 };
    let r = ledger.initialize(a, [1u8; 32], String::new(), String::new(), 0, 0);
    assert_eq!(r.unwrap_err(), CampaignError::InvalidTarget);
    let r = ledger.initialize(a, [1u8; 32], String::new(), String::new(), -5, 0);
    assert_eq!(r.unwrap_err(), CampaignError::InvalidTarget);
    ledger.initialize(a, [1u8; 32], String::new(), String::new(), 10, 0).unwrap();
    let r = ledger.initialize(Address { id: 2 }, [1u8; 32], String::new(), String::new(), 10, 0);
    assert_eq!(r.unwrap_err(), CampaignError::AlreadyExists);
    let mut other = [1u8; 32];
    other[31] = 2;
    assert!(ledger.initialize(a, other, String::new(), String::new(), 10, 0).is_ok());
}

#[test]
fn missing_campaign_is_not_found() {
    let mut ledger = CampaignContract::new(LEDGER);
    let id = [9u8; 32];
    let a = Address { id: 1 };
    assert_eq!(ledger.get(id).unwrap_err(), CampaignError::CampaignNotFound);
    assert_eq!(ledger.status(id), Err(CampaignError::CampaignNotFound));
    assert_eq!(ledger.is_active(id), Err(CampaignError::CampaignNotFound));
    assert_eq!(ledger.creator(id), Err(CampaignError::CampaignNotFound));
    assert_eq!(ledger.available_funds(id), Err(CampaignError::CampaignNotFound));
    assert_eq!(ledger.activate(a, id).unwrap_err(), CampaignError::CampaignNotFound);
    assert_eq!(ledger.cancel(a, id).unwrap_err(), CampaignError::CampaignNotFound);
    let g = donation_grant(&ledger, id, 5);
    assert_eq!(ledger.add_donation(g, id, 5).unwrap_err(), CampaignError::CampaignNotFound);
}

#[test]
fn only_creator_may_activate_or_cancel() {
    let mut ledger = CampaignContract::new(LEDGER);
    let creator = Address { id: 1 };
    let stranger = Address { id: 2 };
    let id = [4u8; 32];
    ledger.initialize(creator, id, String::new(), String::new(), 10, 0).unwrap();
    assert_eq!(ledger.activate(stranger, id).unwrap_err(), CampaignError::Unauthorized);
    assert_eq!(ledger.cancel(stranger, id).unwrap_err(), CampaignError::Unauthorized);
    let r = ledger.set_authorized_contracts(stranger, id, Some(stranger), Some(stranger));
    assert_eq!(r.unwrap_err(), CampaignError::Unauthorized);
    assert_eq!(ledger.status(id), Ok(CampaignStatus::Draft));
}

#[test]
fn activate_twice_is_not_draft() {
    let (mut ledger, creator, id) = active_campaign(100);
    assert_eq!(ledger.activate(creator, id).unwrap_err(), CampaignError::NotDraft);
}

#[test]
fn donation_to_draft_is_not_active() {
    let mut ledger = CampaignContract::new(LEDGER);
    let creator = Address { id: 1 };
    let id = [0u8; 32];
    ledger.initialize(creator, id, String::new(), String::new(), 100, 0).unwrap();
    ledger.set_authorized_contracts(creator, id, Some(DONATIONS), None).unwrap();
    let g = donation_grant(&ledger, id, 5);
    assert_eq!(ledger.add_donation(g, id, 5).unwrap_err(), CampaignError::NotActive);
}

#[test]
fn donation_rejects_nonpositive_amount() {
    let (mut ledger, _, id) = active_campaign(100);
    let g = donation_grant(&ledger, id, 0);
    assert_eq!(ledger.add_donation(g, id, 0).unwrap_err(), CampaignError::InvalidAmount);
    let g = release_grant(&ledger, id, -1);
    assert_eq!(ledger.mark_milestone_completed(g, id, -1).unwrap_err(), CampaignError::InvalidAmount);
}

#[test]
fn grant_must_match_the_call_and_the_registered_component() {
    let (mut ledger, _, id) = active_campaign(100);
    // amount differs from the grant's
    let g = donation_grant(&ledger, id, 5);
    assert_eq!(ledger.add_donation(g, id, 6).unwrap_err(), CampaignError::Unauthorized);
    // wrong operation
    let g = release_grant(&ledger, id, 5);
    assert_eq!(ledger.add_donation(g, id, 5).unwrap_err(), CampaignError::Unauthorized);
    // issuer is not the registered donation component
    let mut g = donation_grant(&ledger, id, 5);
    g.issuer = Address { id: 999 };
    assert_eq!(ledger.add_donation(g, id, 5).unwrap_err(), CampaignError::Unauthorized);
    // scoped to another ledger
    let mut g = donation_grant(&ledger, id, 5);
    g.ledger = Address { id: 101 };
    assert_eq!(ledger.add_donation(g, id, 5).unwrap_err(), CampaignError::Unauthorized);
    assert_eq!(ledger.get(id).unwrap().current_amount, 0);
}

#[test]
fn donation_overflow_is_reported() {
    let (mut ledger, _, id) = active_campaign(100);
    let g = donation_grant(&ledger, id, i128::MAX);
    ledger.add_donation(g, id, i128::MAX).unwrap();
    let g = donation_grant(&ledger, id, 1);
    assert_eq!(ledger.add_donation(g, id, 1).unwrap_err(), CampaignError::Overflow);
    assert_eq!(ledger.get(id).unwrap().current_amount, i128::MAX);
}

#[test]
fn funded_stays_funded_on_later_donations() {
    let (mut ledger, _, id) = active_campaign(1000);
    let g = donation_grant(&ledger, id, 999);
    assert_eq!(ledger.add_donation(g, id, 999).unwrap().status, CampaignStatus::Active);
    let g = donation_grant(&ledger, id, 1);
    assert_eq!(ledger.add_donation(g, id, 1).unwrap().status, CampaignStatus::Funded);
    let g = donation_grant(&ledger, id, 300);
    let c = ledger.add_donation(g, id, 300).unwrap();
    assert_eq!(c.status, CampaignStatus::Funded);
    assert_eq!(c.current_amount, 1300);
}

#[test]
fn donations_alone_never_complete() {
    let (mut ledger, _, id) = active_campaign(10);
    for _ in 0..5 {
        let g = donation_grant(&ledger, id, 100);
        let c = ledger.add_donation(g, id, 100).unwrap();
        assert_ne!(c.status, CampaignStatus::Completed);
    }
    assert_eq!(ledger.status(id), Ok(CampaignStatus::Funded));
}

#[test]
fn release_beyond_available_fails_and_changes_nothing() {
    let (mut ledger, _, id) = active_campaign(1000);
    let g = donation_grant(&ledger, id, 300);
    ledger.add_donation(g, id, 300).unwrap();
    let g = release_grant(&ledger, id, 200);
    ledger.mark_milestone_completed(g, id, 200).unwrap();
    assert_eq!(ledger.available_funds(id), Ok(100));
    let g = release_grant(&ledger, id, 101);
    assert_eq!(ledger.mark_milestone_completed(g, id, 101).unwrap_err(), CampaignError::InsufficientFunds);
    let c = ledger.get(id).unwrap();
    assert_eq!(c.current_amount, 300);
    assert_eq!(c.released_amount, 200);
    assert_eq!(c.status, CampaignStatus::Active);
}

#[test]
fn release_requires_registered_verifier_grant() {
    let (mut ledger, _, id) = active_campaign(1000);
    let g = donation_grant(&ledger, id, 300);
    ledger.add_donation(g, id, 300).unwrap();
    let mut g = release_grant(&ledger, id, 100);
    g.issuer = DONATIONS;
    assert_eq!(ledger.mark_milestone_completed(g, id, 100).unwrap_err(), CampaignError::Unauthorized);
}

#[test]
fn released_never_exceeds_current() {
    let (mut ledger, _, id) = active_campaign(500);
    let steps: [(bool, i128); 7] =
        [(true, 100), (false, 50), (false, 60), (true, 400), (false, 450), (false, 1), (true, 5)];
    for (donate, amount) in steps {
        if donate {
            let g = donation_grant(&ledger, id, amount);
            let _ = ledger.add_donation(g, id, amount);
        } else {
            let g = release_grant(&ledger, id, amount);
            let _ = ledger.mark_milestone_completed(g, id, amount);
        }
        let c = ledger.get(id).unwrap();
        assert!(0 <= c.released_amount && c.released_amount <= c.current_amount);
    }
    let c = ledger.get(id).unwrap();
    assert_eq!(c.current_amount, 500);
    assert_eq!(c.released_amount, 500);
    assert_eq!(c.status, CampaignStatus::Completed);
}

#[test]
fn cancel_from_open_states_and_not_from_terminal() {
    let mut ledger = CampaignContract::new(LEDGER);
    let creator = Address { id: 1 };
    let id = [0u8; 32];
    ledger.initialize(creator, id, String::new(), String::new(), 100, 0).unwrap();
    assert_eq!(ledger.cancel(creator, id).unwrap().status, CampaignStatus::Cancelled);
    assert_eq!(ledger.cancel(creator, id).unwrap_err(), CampaignError::Closed);
    assert_eq!(ledger.is_active(id), Ok(false));

    let (mut ledger, creator, id) = active_campaign(100);
    let g = donation_grant(&ledger, id, 100);
    ledger.add_donation(g, id, 100).unwrap();
    let g = release_grant(&ledger, id, 100);
    ledger.mark_milestone_completed(g, id, 100).unwrap();
    assert_eq!(ledger.cancel(creator, id).unwrap_err(), CampaignError::Closed);
    assert_eq!(ledger.status(id), Ok(CampaignStatus::Completed));
}

#[test]
fn ids_compare_by_every_byte() {
    let a = [7u8; 32];
    let mut b = [7u8; 32];
    assert!(same_id(&a, &b));
    b[0] = 8;
    assert!(!same_id(&a, &b));
    b[0] = 7;
    b[31] = 0;
    assert!(!same_id(&a, &b));
}

#[test]
fn grant_covers_only_its_call() {
    let g = Grant {
        issuer: DONATIONS,
        ledger: LEDGER,
        operation: Operation::RecordDonation,
        campaign_id: [1u8; 32],
        amount: 5,
    };
    assert!(g.covers_call(LEDGER, Operation::RecordDonation, &[1u8; 32], 5));
    assert!(!g.covers_call(LEDGER, Operation::RecordDonation, &[2u8; 32], 5));
    assert!(!g.covers_call(LEDGER, Operation::ReleaseMilestoneFunds, &[1u8; 32], 5));
    assert!(!g.covers_call(Address { id: 1 }, Operation::RecordDonation, &[1u8; 32], 5));
}

#[test]
fn cancelled_campaign_releases_nothing() {
    let (mut ledger, creator, id) = active_campaign(10);
    let g = donation_grant(&ledger, id, 10);
    ledger.add_donation(g, id, 10).unwrap();
    assert_eq!(ledger.status(id), Ok(CampaignStatus::Funded));
    assert_eq!(ledger.cancel(creator, id).unwrap().status, CampaignStatus::Cancelled);
    let g = release_grant(&ledger, id, 10);
    assert_eq!(ledger.mark_milestone_completed(g, id, 10).unwrap_err(), CampaignError::Closed);
    let c = ledger.get(id).unwrap();
    assert_eq!(c.status, CampaignStatus::Cancelled);
    assert_eq!(c.released_amount, 0);
    assert_eq!(ledger.available_funds(id), Ok(10));
    // an over-balance payout still reports the balance first
    let g = release_grant(&ledger, id, 11);
    assert_eq!(ledger.mark_milestone_completed(g, id, 11).unwrap_err(), CampaignError::InsufficientFunds);
}
