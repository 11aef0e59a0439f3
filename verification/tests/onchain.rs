use crowdfunding::{CampaignError, CrowdfundingContract, Principal};
use soroban_sdk::testutils::{Address as _, EnvTestConfig, Ledger as _};
use soroban_sdk::token::{StellarAssetClient, TokenClient};
use soroban_sdk::{Address, Env};

struct World {
    env: Env,
    asset: Address,
    custody: Address,
    owner: Address,
    donor: Address,
}

fn world() -> World {
    let env = Env::new_with_config(EnvTestConfig { capture_snapshot_at_drop: false });
    env.mock_all_auths();
    let owner = Address::generate(&env);
    let donor = Address::generate(&env);
    let custody = Address::generate(&env);
    let asset = env.register_stellar_asset_contract_v2(owner.clone()).address();
    World { env, asset, custody, owner, donor }
}

fn mint(w: &World, to: &Address, amount: i128) {
    StellarAssetClient::new(&w.env, &w.asset).mint(to, &amount);
}

fn balance(w: &World, of: &Address) -> i128 {
    TokenClient::new(&w.env, &w.asset).balance(of)
}

fn open(w: &World, goal: i128, deadline: u64) -> CrowdfundingContract {
    let mut campaign = CrowdfundingContract::new(&w.env);
    let opened = campaign.initialize_on(
        &w.env,
        &w.owner,
        "Test Campaign",
        "This is a test campaign",
        goal,
        deadline,
        "tech",
        &w.asset,
        true,
    );
    assert_eq!(opened, Ok(w.env.ledger().timestamp()));
    campaign
}

fn key_of(address: &Address) -> String {
    address.to_string().to_string()
}

#[test]
fn test_initialize_on_records_clock_and_parties() {
    let w = world();
    w.env.ledger().set_timestamp(40);
    let campaign = open(&w, 100_000_000, 140);
    let metadata = campaign.get_metadata().unwrap();
    assert_eq!(metadata.created_at, 40);
    assert_eq!(metadata.deadline, 140);
    assert_eq!(metadata.owner, Principal::new(&key_of(&w.owner)));
    assert_eq!(campaign.get_asset_token(), Some(Principal::new(&key_of(&w.asset))));
    assert_eq!(metadata.owner.key().len(), 56);
}

#[test]
fn test_initialize_on_deadline_at_clock() {
    let w = world();
    w.env.ledger().set_timestamp(1000);
    let mut campaign = CrowdfundingContract::new(&w.env);
    let result = campaign.initialize_on(
        &w.env,
        &w.owner,
        "Test Campaign",
        "This is a test campaign",
        100_000_000,
        1000,
        "tech",
        &w.asset,
        true,
    );
    assert_eq!(result, Err(CampaignError::DeadlineNotInFuture));
    assert_eq!(campaign.get_is_already_init(), false);
}

#[test]
fn test_donate_on_moves_funds_into_custody() {
    let w = world();
    mint(&w, &w.donor, 100_000_000);
    let mut campaign = open(&w, 100_000_000, 100);
    w.env.ledger().set_timestamp(7);

    let receipt = campaign
        .donate_on(&w.env, &w.asset, &w.custody, &w.donor, 30_000_000, true)
        .unwrap();
    assert_eq!(receipt.amount, 30_000_000);
    assert_eq!(receipt.at, 7);
    assert_eq!(receipt.party, Principal::new(&key_of(&w.donor)));

    assert_eq!(balance(&w, &w.donor), 70_000_000);
    assert_eq!(balance(&w, &w.custody), 30_000_000);
    assert_eq!(campaign.get_total_raised(), 30_000_000);
    assert_eq!(campaign.get_donation(&receipt.party), 30_000_000);
    let history = campaign.get_donation_history(10, 0);
    assert_eq!(history.len(), 1);
    assert_eq!(history[0].timestamp, 7);
    assert_eq!(history[0].donor, receipt.party);
}

#[test]
fn test_donate_on_without_funds_changes_nothing() {
    let w = world();
    let mut campaign = open(&w, 100_000_000, 100);
    let result = campaign.donate_on(&w.env, &w.asset, &w.custody, &w.donor, 30_000_000, true);
    assert_eq!(result, Err(CampaignError::TransferFailed));
    assert_eq!(campaign.get_total_raised(), 0);
    assert_eq!(campaign.get_donation_history(10, 0).len(), 0);
    assert_eq!(balance(&w, &w.custody), 0);
}

#[test]
fn test_donate_on_turned_away_moves_no_funds() {
    let w = world();
    mint(&w, &w.donor, 100_000_000);
    let mut campaign = open(&w, 100_000_000, 100);

    let result = campaign.donate_on(&w.env, &w.asset, &w.custody, &w.donor, 999_999, true);
    assert_eq!(result, Err(CampaignError::DonationTooSmall));
    assert_eq!(balance(&w, &w.donor), 100_000_000);

    w.env.ledger().set_timestamp(101);
    let result = campaign.donate_on(&w.env, &w.asset, &w.custody, &w.donor, 30_000_000, true);
    assert_eq!(result, Err(CampaignError::CampaignEnded));
    assert_eq!(balance(&w, &w.donor), 100_000_000);
    assert_eq!(balance(&w, &w.custody), 0);
}

#[test]
fn test_refund_on_returns_funds_once() {
    let w = world();
    mint(&w, &w.donor, 100_000_000);
    let mut campaign = open(&w, 100_000_000, 100);
    campaign.donate_on(&w.env, &w.asset, &w.custody, &w.donor, 30_000_000, true).unwrap();

    let early = campaign.refund_on(&w.env, &w.asset, &w.custody, &w.donor, true);
    assert_eq!(early, Err(CampaignError::RefundTooEarly));
    assert_eq!(balance(&w, &w.custody), 30_000_000);

    w.env.ledger().set_timestamp(101);
    let receipt = campaign.refund_on(&w.env, &w.asset, &w.custody, &w.donor, true).unwrap();
    assert_eq!(receipt.amount, 30_000_000);
    assert_eq!(receipt.at, 101);
    assert_eq!(balance(&w, &w.donor), 100_000_000);
    assert_eq!(balance(&w, &w.custody), 0);
    assert_eq!(campaign.get_total_raised(), 0);
    assert_eq!(campaign.get_donation(&receipt.party), 0);

    let again = campaign.refund_on(&w.env, &w.asset, &w.custody, &w.donor, true);
    assert_eq!(again, Err(CampaignError::NoDonation));
    assert_eq!(balance(&w, &w.donor), 100_000_000);
}

#[test]
fn test_withdraw_on_pays_owner_once() {
    let w = world();
    mint(&w, &w.donor, 200_000_000);
    let mut campaign = open(&w, 100_000_000, 100);
    campaign.donate_on(&w.env, &w.asset, &w.custody, &w.donor, 150_000_000, true).unwrap();

    let early = campaign.withdraw_on(&w.env, &w.asset, &w.custody, &w.owner, true);
    assert_eq!(early, Err(CampaignError::CampaignNotEnded));

    w.env.ledger().set_timestamp(101);
    let stranger = campaign.withdraw_on(&w.env, &w.asset, &w.custody, &w.donor, true);
    assert_eq!(stranger, Err(CampaignError::NotOwner));
    assert_eq!(balance(&w, &w.custody), 150_000_000);

    let receipt = campaign.withdraw_on(&w.env, &w.asset, &w.custody, &w.owner, true).unwrap();
    assert_eq!(receipt.amount, 150_000_000);
    assert_eq!(receipt.party, Principal::new(&key_of(&w.owner)));
    assert_eq!(balance(&w, &w.owner), 150_000_000);
    assert_eq!(balance(&w, &w.custody), 0);
    assert_eq!(campaign.is_withdrawn(), true);

    let again = campaign.withdraw_on(&w.env, &w.asset, &w.custody, &w.owner, true);
    assert_eq!(again, Err(CampaignError::AlreadyWithdrawn));
    assert_eq!(balance(&w, &w.owner), 150_000_000);
}

#[test]
fn test_withdraw_on_empty_custody_changes_nothing() {
    let w = world();
    mint(&w, &w.donor, 200_000_000);
    let mut campaign = open(&w, 100_000_000, 100);
    campaign.donate_on(&w.env, &w.asset, &w.custody, &w.donor, 150_000_000, true).unwrap();
    w.env.ledger().set_timestamp(101);

    let elsewhere = Address::generate(&w.env);
    let result = campaign.withdraw_on(&w.env, &w.asset, &elsewhere, &w.owner, true);
    assert_eq!(result, Err(CampaignError::TransferFailed));
    assert_eq!(campaign.is_withdrawn(), false);
    assert_eq!(campaign.get_total_raised(), 150_000_000);
    assert_eq!(balance(&w, &w.owner), 0);
}

#[test]
fn test_unauthorized_on_chain_calls_are_rejected() {
    let w = world();
    mint(&w, &w.donor, 100_000_000);
    let mut campaign = open(&w, 100_000_000, 100);
    let result = campaign.donate_on(&w.env, &w.asset, &w.custody, &w.donor, 30_000_000, false);
    assert_eq!(result, Err(CampaignError::Unauthorized));
    assert_eq!(balance(&w, &w.donor), 100_000_000);
    w.env.ledger().set_timestamp(101);
    let result = campaign.refund_on(&w.env, &w.asset, &w.custody, &w.donor, false);
    assert_eq!(result, Err(CampaignError::Unauthorized));
    let result = campaign.withdraw_on(&w.env, &w.asset, &w.custody, &w.owner, false);
    assert_eq!(result, Err(CampaignError::Unauthorized));
}

#[test]
fn test_account_as_asset_fails_the_transfer() {
    let w = world();
    let account =
        Address::from_str(&w.env, "GAAAAAAAAAAAAAAAAAAAAAAAAAAAAAAAAAAAAAAAAAAAAAAAAAAAAWHF");
    let mut campaign = CrowdfundingContract::new(&w.env);
    let opened = campaign.initialize_on(
        &w.env,
        &w.owner,
        "Test Campaign",
        "This is a test campaign",
        100_000_000,
        100,
        "tech",
        &account,
        true,
    );
    assert_eq!(opened, Ok(0));
    assert_eq!(campaign.get_asset_token(), Some(Principal::new(&key_of(&account))));

    let result = campaign.donate_on(&w.env, &account, &w.custody, &w.donor, 30_000_000, true);
    assert_eq!(result, Err(CampaignError::TransferFailed));
    assert_eq!(campaign.get_total_raised(), 0);

    let donor = Principal::new(&key_of(&w.donor));
    campaign.donate(&donor, 30_000_000, 0, true, true).unwrap();
    w.env.ledger().set_timestamp(101);
    let result = campaign.refund_on(&w.env, &account, &w.custody, &w.donor, true);
    assert_eq!(result, Err(CampaignError::TransferFailed));
    assert_eq!(campaign.get_donation(&donor), 30_000_000);

    let mut reached = CrowdfundingContract::new(&w.env);
    w.env.ledger().set_timestamp(0);
    reached
        .initialize_on(&w.env, &w.owner, "T", "D", 100_000_000, 100, "tech", &account, true)
        .unwrap();
    reached.donate(&donor, 100_000_000, 0, true, true).unwrap();
    w.env.ledger().set_timestamp(101);
    let result = reached.withdraw_on(&w.env, &account, &w.custody, &w.owner, true);
    assert_eq!(result, Err(CampaignError::TransferFailed));
    assert_eq!(reached.is_withdrawn(), false);
}

#[test]
fn test_unknown_contract_as_asset_fails_the_transfer() {
    let w = world();
    let nowhere = Address::generate(&w.env);
    let mut campaign = open(&w, 100_000_000, 100);
    let result = campaign.donate_on(&w.env, &nowhere, &w.custody, &w.donor, 30_000_000, true);
    assert_eq!(result, Err(CampaignError::TransferFailed));
    assert_eq!(campaign.get_total_raised(), 0);
}

#[test]
fn test_failed_transfer_of_a_huge_donation_is_a_transfer_error() {
    let w = world();
    mint(&w, &w.donor, 100_000_000);
    let mut campaign = open(&w, 100_000_000, 100);
    campaign.donate_on(&w.env, &w.asset, &w.custody, &w.donor, 30_000_000, true).unwrap();
    let result = campaign.donate_on(&w.env, &w.asset, &w.custody, &w.donor, i128::MAX, true);
    assert_eq!(result, Err(CampaignError::TransferFailed));
    assert_eq!(campaign.get_total_raised(), 30_000_000);
    assert_eq!(balance(&w, &w.donor), 70_000_000);
    assert_eq!(balance(&w, &w.custody), 30_000_000);
}
