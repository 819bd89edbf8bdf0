use givehub::auth::Address;
use givehub::campaign::{CampaignContract, CampaignStatus};
use givehub::donation::DonationContract;
use givehub::verification::{MilestoneStatus, VerificationContract};

fn deploy() -> (CampaignContract, DonationContract, VerificationContract) {
    (
        CampaignContract::new(Address { id: 100 }),
        DonationContract::new(Address { id: 200 }),
        VerificationContract::new(Address { id: 300 }),
    )
}

#[test]
fn test_full_campaign_flow() {
    let donor = Address { id: 1 };
    let creator = Address { id: 2 };
    let verifier = Address { id: 3 };
    let (mut campaigns, mut donations, mut engine) = deploy();
    let id = [0u8; 32];

    let campaign = campaigns
        .initialize(creator, id, String::from("Test Campaign"), String::from("Test Description"), 1000, 0)
        .unwrap();
    campaigns
        .set_authorized_contracts(creator, campaign.id, Some(donations.address()), Some(engine.address()))
        .unwrap();
    engine.configure_campaign(creator, &campaigns, campaign.id, verifier).unwrap();

    let active_campaign = campaigns.activate(creator, campaign.id).unwrap();
    assert_eq!(active_campaign.status, CampaignStatus::Active);

    engine.create_milestone(creator, campaign.id, String::from("First Milestone"), 500).unwrap();
    donations.donate(&mut campaigns, donor, campaign.id, 600, None, 0).unwrap();

    let docs = vec![String::from("verification.pdf"), String::from("photos.zip")];
    let verified_milestone = engine.verify_milestone(verifier, campaign.id, 0, docs).unwrap();
    assert_eq!(verified_milestone.status, MilestoneStatus::Verified);

    let completed_milestone = engine.complete_milestone(verifier, &mut campaigns, campaign.id, 0, 0).unwrap();
    assert_eq!(completed_milestone.status, MilestoneStatus::Completed);

    let final_campaign = campaigns.get(campaign.id).unwrap();
    assert!(final_campaign.current_amount >= 600);
    let total_donated = donations.get_total_donated(campaign.id);
    assert_eq!(total_donated, 600);
}

#[test]
fn test_full_flow_test_full_campaign_flow() {
    let donor = Address { id: 1 };
    let creator = Address { id: 2 };
    let verifier = Address { id: 3 };
    let (mut campaigns, mut donations, mut engine) = deploy();
    let campaign_id = [0u8; 32];

    campaigns
        .initialize(creator, campaign_id, String::from("Test Campaign"), String::from("Test Description"), 1000, 0)
        .unwrap();
    campaigns
        .set_authorized_contracts(creator, campaign_id, Some(donations.address()), Some(engine.address()))
        .unwrap();
    engine.configure_campaign(creator, &campaigns, campaign_id, verifier).unwrap();

    let active_campaign = campaigns.activate(creator, campaign_id).unwrap();
    assert_eq!(active_campaign.status, CampaignStatus::Active);

    let milestone = engine.create_milestone(creator, campaign_id, String::from("First Milestone"), 500).unwrap();
    assert_eq!(milestone.status, MilestoneStatus::Pending);

    let donation = donations.donate(&mut campaigns, donor, campaign_id, 600, None, 0).unwrap();
    assert_eq!(donation.amount, 600);

    let docs = vec![String::from("verification.pdf"), String::from("photos.zip")];
    let verified = engine.verify_milestone(verifier, campaign_id, 0, docs).unwrap();
    assert_eq!(verified.status, MilestoneStatus::Verified);

    let completed = engine.complete_milestone(verifier, &mut campaigns, campaign_id, 0, 0).unwrap();
    assert_eq!(completed.status, MilestoneStatus::Completed);

    let final_campaign = campaigns.get(campaign_id).unwrap();
    assert_eq!(final_campaign.current_amount, 600);
    assert_eq!(campaigns.available_funds(campaign_id), Ok(100));

    let total_donated = donations.get_total_donated(campaign_id);
    assert_eq!(total_donated, 600);
}
