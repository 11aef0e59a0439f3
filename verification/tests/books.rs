use crowdfunding::{
    CampaignMetadata, CampaignSnapshot, CrowdfundingContract, DonationLog, DonationRecord,
    DonorLedger, LedgerEntry, Principal,
};
use soroban_sdk::testutils::EnvTestConfig;
use soroban_sdk::Env;

fn env() -> Env {
    Env::new_with_config(EnvTestConfig { capture_snapshot_at_drop: false })
}

fn p(key: &str) -> Principal {
    Principal::new(key)
}

fn entry(key: &str, amount: i128) -> LedgerEntry {
    LedgerEntry { donor: p(key), amount }
}

fn record(key: &str, amount: i128, timestamp: u64) -> DonationRecord {
    DonationRecord { donor: p(key), amount, timestamp }
}

fn log(n: u64) -> Vec<DonationRecord> {
    (1..=n).map(|i| record("GDONOR", i as i128 * 1_000_000, i)).collect()
}

fn history_page(log: &Vec<DonationRecord>, limit: u32, offset: u32) -> Vec<DonationRecord> {
    DonationLog::from_records(&env(), log).unwrap().page(limit, offset)
}

fn amounts(page: &[DonationRecord]) -> Vec<i128> {
    page.iter().map(|r| r.amount).collect()
}

const M: i128 = 1_000_000;

#[test]
fn test_history_page_windows() {
    let log = log(5);
    assert_eq!(amounts(&history_page(&log, 2, 0)), vec![5 * M, 4 * M]);
    assert_eq!(amounts(&history_page(&log, 2, 2)), vec![3 * M, 2 * M]);
    assert_eq!(amounts(&history_page(&log, 2, 4)), vec![M]);
    assert_eq!(amounts(&history_page(&log, 5, 0)), vec![5 * M, 4 * M, 3 * M, 2 * M, M]);
    assert_eq!(amounts(&history_page(&log, 10, 0)), vec![5 * M, 4 * M, 3 * M, 2 * M, M]);
    assert_eq!(amounts(&history_page(&log, 1, 0)), vec![5 * M]);
    assert_eq!(amounts(&history_page(&log, 1, 4)), vec![M]);
    assert_eq!(amounts(&history_page(&log, u32::MAX, 1)), vec![4 * M, 3 * M, 2 * M, M]);
}

#[test]
fn test_history_page_empty_results() {
    let log = log(5);
    assert_eq!(history_page(&log, 2, 5), vec![]);
    assert_eq!(history_page(&log, 2, 6), vec![]);
    assert_eq!(history_page(&log, 2, u32::MAX), vec![]);
    assert_eq!(history_page(&log, 0, 0), vec![]);
    assert_eq!(history_page(&log, 0, 4), vec![]);
    assert_eq!(history_page(&vec![], 3, 0), vec![]);
    assert_eq!(history_page(&vec![], 0, 0), vec![]);
}

#[test]
fn test_history_page_keeps_records_whole() {
    let log = vec![record("GA", 3 * M, 10), record("GB", 2 * M, 20)];
    assert_eq!(history_page(&log, 5, 0), vec![record("GB", 2 * M, 20), record("GA", 3 * M, 10)]);
}

#[test]
fn test_ledger_credit_and_settle() {
    let mut ledger = DonorLedger::new(&env());
    assert!(ledger.is_empty());
    assert_eq!(ledger.balance(&p("GA")), 0);
    assert!(ledger.credit(&p("GA"), 5));
    assert!(ledger.credit(&p("GB"), 7));
    assert!(ledger.credit(&p("GA"), 1));
    assert_eq!(ledger.balance(&p("GA")), 6);
    assert_eq!(ledger.balance(&p("GB")), 7);
    assert_eq!(ledger.total(), Some(13));
    assert_eq!(ledger.to_entries(), vec![entry("GA", 6), entry("GB", 7)]);

    assert_eq!(ledger.settle(&p("GA")), 6);
    assert_eq!(ledger.balance(&p("GA")), 0);
    assert_eq!(ledger.settle(&p("GA")), 0);
    assert_eq!(ledger.settle(&p("GC")), 0);
    assert_eq!(ledger.total(), Some(7));
    // A settled donor keeps its line.
    assert_eq!(ledger.to_entries(), vec![entry("GA", 0), entry("GB", 7)]);
    assert!(!ledger.is_empty());
}

#[test]
fn test_ledger_credit_refuses_debt_and_overflow() {
    let mut ledger = DonorLedger::new(&env());
    assert!(!ledger.credit(&p("GA"), -1));
    assert!(ledger.is_empty());
    assert!(ledger.credit(&p("GA"), i128::MAX));
    assert!(!ledger.credit(&p("GA"), 1));
    assert_eq!(ledger.balance(&p("GA")), i128::MAX);
    assert!(ledger.credit(&p("GA"), 0));
    assert!(ledger.credit(&p("GB"), 1));
    assert_eq!(ledger.total(), None);
}

#[test]
fn test_ledger_from_entries() {
    let ledger = DonorLedger::from_entries(&env(), vec![entry("GA", 1), entry("GB", 0)]).unwrap();
    assert_eq!(ledger.balance(&p("GA")), 1);
    assert_eq!(ledger.total(), Some(1));
    assert!(DonorLedger::from_entries(&env(), vec![]).unwrap().is_empty());
    assert!(DonorLedger::from_entries(&env(), vec![entry("GA", 1), entry("GA", 2)]).is_none());
    assert!(DonorLedger::from_entries(&env(), vec![entry("GA", 1), entry("GB", -2)]).is_none());
    assert!(DonorLedger::from_entries(&env(), vec![entry("GA", -1)]).is_none());
}

fn stored() -> CampaignSnapshot {
    CampaignSnapshot {
        initialized: true,
        metadata: CampaignMetadata {
            title: "Title".to_string(),
            description: "Description".to_string(),
            category: "art".to_string(),
            owner: p("GOWNER"),
            goal: 100_000_000,
            deadline: 100,
            created_at: 10,
        },
        asset_token: p("CASSET"),
        total_raised: 8 * M,
        withdrawn: false,
        ledger: vec![entry("GA", 5 * M), entry("GB", 3 * M)],
        history: vec![record("GA", 5 * M, 20), record("GB", 3 * M, 30)],
    }
}

#[test]
fn test_restore_consistent_snapshot() {
    let mut campaign = CrowdfundingContract::restore(&env(), stored()).unwrap();
    assert_eq!(campaign.get_total_raised(), 8 * M);
    assert_eq!(campaign.get_donation(&p("GA")), 5 * M);
    assert_eq!(campaign.get_donation(&p("GB")), 3 * M);
    assert_eq!(campaign.get_owner(), Some(p("GOWNER")));
    assert_eq!(campaign.get_asset_token(), Some(p("CASSET")));
    assert_eq!(campaign.get_metadata(), Some(stored().metadata));
    assert_eq!(campaign.get_donation_history(1, 0), vec![record("GB", 3 * M, 30)]);
    campaign.donate(&p("GA"), 2 * M, 40, true, true).unwrap();
    assert_eq!(campaign.get_total_raised(), 10 * M);
}

#[test]
fn test_snapshot_round_trip() {
    let mut campaign = CrowdfundingContract::new(&env());
    campaign
        .initialize(&p("GOWNER"), "Title", "Description", 100_000_000, 100, "art", &p("CASSET"), 10, true)
        .unwrap();
    campaign.donate(&p("GA"), 5 * M, 20, true, true).unwrap();
    campaign.donate(&p("GB"), 3 * M, 30, true, true).unwrap();
    let snapshot = campaign.snapshot();
    assert_eq!(snapshot.initialized, true);
    assert_eq!(snapshot.metadata, stored().metadata);
    assert_eq!(snapshot.asset_token, p("CASSET"));
    assert_eq!(snapshot.total_raised, 8 * M);
    assert_eq!(snapshot.withdrawn, false);
    assert_eq!(snapshot.ledger, stored().ledger);
    assert_eq!(snapshot.history, stored().history);
    let restored = CrowdfundingContract::restore(&env(), snapshot).unwrap();
    assert_eq!(restored.get_total_raised(), campaign.get_total_raised());
    assert_eq!(restored.get_donation_history(10, 0), campaign.get_donation_history(10, 0));

    let blank = CrowdfundingContract::restore(&env(), CrowdfundingContract::new(&env()).snapshot()).unwrap();
    assert_eq!(blank.get_is_already_init(), false);
}

#[test]
fn test_restore_rejects_inconsistent_snapshots() {
    let mut wrong_total = stored();
    wrong_total.total_raised = 9 * M;
    assert!(CrowdfundingContract::restore(&env(), wrong_total).is_none());

    let mut twice = stored();
    twice.ledger = vec![entry("GA", 5 * M), entry("GA", 3 * M)];
    assert!(CrowdfundingContract::restore(&env(), twice).is_none());

    let mut debt = stored();
    debt.ledger = vec![entry("GA", 9 * M), entry("GB", -M)];
    assert!(CrowdfundingContract::restore(&env(), debt).is_none());

    let mut low_goal = stored();
    low_goal.metadata.goal = 99_999_999;
    assert!(CrowdfundingContract::restore(&env(), low_goal).is_none());

    let mut late = stored();
    late.metadata.created_at = 100;
    assert!(CrowdfundingContract::restore(&env(), late).is_none());

    let mut withdrawn_early = stored();
    withdrawn_early.withdrawn = true;
    assert!(CrowdfundingContract::restore(&env(), withdrawn_early).is_none());

    let mut unopened = stored();
    unopened.initialized = false;
    assert!(CrowdfundingContract::restore(&env(), unopened).is_none());

    let mut overflow = stored();
    overflow.ledger = vec![entry("GA", i128::MAX), entry("GB", 1)];
    overflow.total_raised = i128::MAX;
    assert!(CrowdfundingContract::restore(&env(), overflow).is_none());

    let mut reached = stored();
    reached.ledger = vec![entry("GA", 100_000_000)];
    reached.total_raised = 100_000_000;
    reached.withdrawn = true;
    assert!(CrowdfundingContract::restore(&env(), reached).is_some());
}

#[test]
fn test_donation_log_keeps_order() {
    let mut log = DonationLog::new(&env());
    assert_eq!(log.len(), 0);
    assert_eq!(log.get(0), None);
    log.push(&record("GA", 3 * M, 10));
    log.push(&record("GB", 2 * M, 20));
    log.push(&record("GA", 4 * M, 30));
    assert_eq!(log.len(), 3);
    assert_eq!(log.get(0), Some(record("GA", 3 * M, 10)));
    assert_eq!(log.get(2), Some(record("GA", 4 * M, 30)));
    assert_eq!(log.get(3), None);
    assert_eq!(
        log.to_records(),
        vec![record("GA", 3 * M, 10), record("GB", 2 * M, 20), record("GA", 4 * M, 30)]
    );
    assert_eq!(log.page(1, 1), vec![record("GB", 2 * M, 20)]);
    assert_eq!(log.cleared().len(), 0);
    assert_eq!(log.len(), 3);
}

#[test]
fn test_ledger_entries_come_in_key_order() {
    let mut ledger = DonorLedger::new(&env());
    assert!(ledger.credit(&p("GB"), 7));
    assert!(ledger.credit(&p("GC"), 1));
    assert!(ledger.credit(&p("GA"), 5));
    assert_eq!(ledger.to_entries(), vec![entry("GA", 5), entry("GB", 7), entry("GC", 1)]);
    assert_eq!(ledger.cleared().to_entries(), vec![]);
    assert_eq!(ledger.total(), Some(13));
}
