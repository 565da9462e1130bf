use crowdfunding::address::Address;
use crowdfunding::donations::Donation;
use crowdfunding::ledger::{CrowdfundingContract, LedgerError};

const XLM_CONTRACT_TESTNET: &str = "CDLZFC3SYJYDZT7K67VZ75HPJVIEUVNIXF47ZG2FB2RMQQVU2HHGCYSC";

fn account(n: u8) -> Address {
    Address::new(vec![b'G', n, n, n])
}

fn token() -> Address {
    Address::from_str(XLM_CONTRACT_TESTNET)
}

fn started(owner: &Address, goal: i128, deadline: u64) -> CrowdfundingContract {
    let mut ledger = CrowdfundingContract::new();
    assert_eq!(ledger.initialize(owner, owner.clone(), goal, deadline, token()), Ok(()));
    ledger
}

#[test]
fn test_initialize_campaign() {
    let owner = account(1);
    let goal = 900_000_000i128;
    let deadline = 0u64 + 86400;
    let ledger = started(&owner, goal, deadline);
    assert_eq!(ledger.get_total_raised(), 0);
}

#[test]
fn test_get_donation_no_donation() {
    let owner = account(1);
    let non_donor = account(2);
    let ledger = started(&owner, 900_000_000i128, 86400);
    assert_eq!(ledger.get_donation(&non_donor), 0);
}

#[test]
fn test_donate_zero_amount() {
    let owner = account(1);
    let donor = account(2);
    let mut ledger = started(&owner, 900_000_000i128, 86400);
    assert_eq!(ledger.donate(&donor, &donor, 0, 0, true), Err(LedgerError::InvalidAmount));
    assert_eq!(ledger.get_total_raised(), 0);
    assert_eq!(ledger.get_donation(&donor), 0);
}

#[test]
fn test_donate_negative_amount() {
    let owner = account(1);
    let donor = account(2);
    let mut ledger = started(&owner, 900_000_000i128, 86400);
    assert_eq!(
        ledger.donate(&donor, &donor, -100_000_000, 0, true),
        Err(LedgerError::InvalidAmount)
    );
    assert_eq!(ledger.get_total_raised(), 0);
}

#[test]
fn test_donate_after_deadline() {
    let owner = account(1);
    let donor = account(2);
    let deadline = 0u64 + 100;
    let mut ledger = started(&owner, 900_000_000i128, deadline);
    assert_eq!(
        ledger.donate(&donor, &donor, 100_000_000, deadline + 1, true),
        Err(LedgerError::CampaignEnded)
    );
    assert_eq!(ledger.get_total_raised(), 0);
}

#[test]
fn test_is_already_init_before_initialization() {
    let ledger = CrowdfundingContract::new();
    assert_eq!(ledger.get_is_already_init(), false);
}

#[test]
fn test_is_already_init_after_initialization() {
    let owner = account(1);
    let mut ledger = CrowdfundingContract::new();
    assert_eq!(ledger.get_is_already_init(), false);
    assert_eq!(ledger.initialize(&owner, owner.clone(), 900_000_000i128, 86400, token()), Ok(()));
    assert_eq!(ledger.get_is_already_init(), true);
}

#[test]
fn test_is_already_init_persists() {
    let owner = account(1);
    let donor = account(2);
    let ledger = started(&owner, 900_000_000i128, 86400);
    assert_eq!(ledger.get_is_already_init(), true);
    let _ = ledger.get_total_raised();
    let _ = ledger.get_donation(&donor);
    assert_eq!(ledger.get_is_already_init(), true);
}

#[test]
fn totals_follow_each_donation() {
    let owner = account(1);
    let a = account(2);
    let b = account(3);
    let mut ledger = started(&owner, 1_000, 500);
    assert_eq!(ledger.donate(&a, &a, 10, 1, true), Ok(()));
    assert_eq!(ledger.donate(&b, &b, 7, 2, true), Ok(()));
    assert_eq!(ledger.donate(&a, &a, 5, 3, true), Ok(()));
    assert_eq!(ledger.donate(&b, &b, 1, 4, true), Ok(()));
    assert_eq!(ledger.get_total_raised(), 23);
    assert_eq!(ledger.get_donation(&a), 15);
    assert_eq!(ledger.get_donation(&b), 8);
    assert_eq!(ledger.get_donation(&owner), 0);
}

#[test]
fn donation_at_deadline_is_accepted() {
    let owner = account(1);
    let donor = account(2);
    let mut ledger = started(&owner, 900_000_000, 86400);
    assert_eq!(ledger.donate(&donor, &donor, 30, 86400, true), Ok(()));
    assert_eq!(
        ledger.donate(&donor, &donor, 30, 86401, true),
        Err(LedgerError::CampaignEnded)
    );
    assert_eq!(ledger.get_total_raised(), 30);
}

#[test]
fn non_donor_has_zero_before_initialization() {
    let ledger = CrowdfundingContract::new();
    assert_eq!(ledger.get_donation(&account(5)), 0);
    assert_eq!(ledger.get_total_raised(), 0);
}

#[test]
fn two_donors_and_a_refused_negative() {
    let owner = account(1);
    let donor_a = account(2);
    let donor_b = account(3);
    let mut ledger = started(&owner, 900_000_000, 0 + 86400);
    assert_eq!(ledger.donate(&donor_a, &donor_a, 100, 0, true), Ok(()));
    assert_eq!(ledger.donate(&donor_a, &donor_a, 50, 0, true), Ok(()));
    assert_eq!(ledger.get_total_raised(), 150);
    assert_eq!(ledger.get_donation(&donor_a), 150);
    assert_eq!(ledger.donate(&donor_b, &donor_b, -5, 0, true), Err(LedgerError::InvalidAmount));
    assert_eq!(ledger.get_total_raised(), 150);
}

#[test]
fn reinitialization_discards_donations() {
    let owner = account(1);
    let donor_a = account(2);
    let mut ledger = started(&owner, 900_000_000, 86400);
    assert_eq!(ledger.donate(&donor_a, &donor_a, 100, 0, true), Ok(()));
    assert_eq!(ledger.initialize(&owner, owner.clone(), 5, 10, token()), Ok(()));
    assert_eq!(ledger.get_total_raised(), 0);
    assert_eq!(ledger.get_donation(&donor_a), 0);
    assert_eq!(ledger.get_is_already_init(), true);
}

#[test]
fn initialize_by_someone_else_is_unauthorized() {
    let owner = account(1);
    let other = account(2);
    let mut ledger = CrowdfundingContract::new();
    assert_eq!(
        ledger.initialize(&other, owner.clone(), 900_000_000, 86400, token()),
        Err(LedgerError::Unauthorized)
    );
    assert_eq!(ledger.get_is_already_init(), false);
}

#[test]
fn donate_for_someone_else_is_unauthorized() {
    let owner = account(1);
    let donor = account(2);
    let mut ledger = started(&owner, 900_000_000, 86400);
    assert_eq!(ledger.donate(&owner, &donor, 10, 0, true), Err(LedgerError::Unauthorized));
    assert_eq!(ledger.get_donation(&donor), 0);
}

#[test]
fn donate_before_initialization_is_refused() {
    let donor = account(2);
    let mut ledger = CrowdfundingContract::new();
    assert_eq!(ledger.donate(&donor, &donor, 10, 0, true), Err(LedgerError::NotInitialized));
    assert_eq!(ledger.get_is_already_init(), false);
}

#[test]
fn failed_transfer_records_nothing() {
    let owner = account(1);
    let donor = account(2);
    let mut ledger = started(&owner, 900_000_000, 86400);
    assert_eq!(ledger.donate(&donor, &donor, 10, 0, false), Err(LedgerError::TransferFailed));
    assert_eq!(ledger.get_total_raised(), 0);
    assert_eq!(ledger.get_donation(&donor), 0);
}

#[test]
fn donation_past_the_largest_total_overflows() {
    let owner = account(1);
    let a = account(2);
    let b = account(3);
    let mut ledger = started(&owner, 900_000_000, 86400);
    assert_eq!(ledger.donate(&a, &a, i128::MAX - 1, 0, true), Ok(()));
    assert_eq!(ledger.donate(&b, &b, 2, 0, true), Err(LedgerError::Overflow));
    assert_eq!(ledger.donate(&b, &b, 1, 0, true), Ok(()));
    assert_eq!(ledger.get_total_raised(), i128::MAX);
    assert_eq!(ledger.get_donation(&b), 1);
}

#[test]
fn donation_order_names_token_donor_and_amount() {
    let owner = account(1);
    let donor = account(2);
    let ledger = started(&owner, 900_000_000, 86400);
    let order = ledger.donation_order(&donor, &donor, 25, 0).unwrap();
    assert!(order.token == token());
    assert!(order.from == donor);
    assert_eq!(order.amount, 25);
    assert_eq!(ledger.donation_order(&donor, &donor, 0, 0).err(), Some(LedgerError::InvalidAmount));
}

#[test]
fn addresses_compare_by_bytes() {
    let a = Address::from_str("GABC");
    let b = Address::new(vec![b'G', b'A', b'B', b'C']);
    let c = Address::new(vec![b'G', b'A', b'B']);
    assert!(a == b);
    assert!(a != c);
    assert!(a.clone() == a);
    assert_eq!(a.as_bytes(), b"GABC");
}

fn record(n: u8, amount: i128) -> Donation {
    Donation { donor: account(n), amount }
}

#[test]
fn restore_rebuilds_totals_from_records() {
    let owner = account(1);
    let ledger = CrowdfundingContract::restore(
        owner.clone(),
        900,
        86400,
        token(),
        vec![record(2, 40), record(3, 2)],
    )
    .unwrap();
    assert!(ledger.get_is_already_init());
    assert_eq!(ledger.get_total_raised(), 42);
    assert_eq!(ledger.get_donation(&account(2)), 40);
    assert_eq!(ledger.get_donation(&account(3)), 2);
    assert_eq!(ledger.get_donation(&account(4)), 0);
    assert!(ledger.owner() == Some(&owner));
    assert_eq!(ledger.goal(), Some(900));
    assert_eq!(ledger.deadline(), Some(86400));
    assert!(ledger.token() == Some(&token()));
    assert_eq!(ledger.donation_records().len(), 2);
}

#[test]
fn restore_refuses_inconsistent_records() {
    let owner = account(1);
    assert!(CrowdfundingContract::restore(owner.clone(), 1, 1, token(), vec![record(2, 0)]).is_none());
    assert!(CrowdfundingContract::restore(owner.clone(), 1, 1, token(), vec![record(2, 5), record(2, 6)])
        .is_none());
    assert!(CrowdfundingContract::restore(
        owner.clone(),
        1,
        1,
        token(),
        vec![record(2, i128::MAX), record(3, 1)]
    )
    .is_none());
    assert!(CrowdfundingContract::restore(owner, 1, 1, token(), vec![]).is_some());
}

#[test]
fn records_follow_donations_and_reset_on_initialize() {
    let owner = account(1);
    let mut ledger = CrowdfundingContract::new();
    assert!(ledger.owner().is_none());
    assert_eq!(ledger.donation_records().len(), 0);
    assert_eq!(ledger.initialize(&owner, owner.clone(), 10, 20, token()), Ok(()));
    assert_eq!(ledger.donate(&account(2), &account(2), 3, 0, true), Ok(()));
    assert_eq!(ledger.donate(&account(2), &account(2), 4, 0, true), Ok(()));
    let records = ledger.donation_records();
    assert_eq!(records.len(), 1);
    assert_eq!(records[0].amount, 7);
    assert!(records[0].donor == account(2));
}

#[test]
fn rejected_transfer_is_reported_before_overflow() {
    let owner = account(1);
    let a = account(2);
    let b = account(3);
    let mut ledger = started(&owner, 900_000_000, 86400);
    assert_eq!(ledger.donate(&a, &a, i128::MAX - 1, 0, true), Ok(()));
    assert!(ledger.donation_order(&b, &b, 2, 0).is_ok());
    assert_eq!(ledger.donate(&b, &b, 2, 0, false), Err(LedgerError::TransferFailed));
    assert_eq!(ledger.donate(&b, &b, 2, 0, true), Err(LedgerError::Overflow));
    assert_eq!(ledger.get_total_raised(), i128::MAX - 1);
    assert_eq!(ledger.get_donation(&b), 0);
}
