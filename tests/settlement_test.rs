use crowdfunding::campaign::Crowdfunding;
use crowdfunding::model::CrowdfundingError;
use crowdfunding::status::{evaluate, Status};

const OWNER: u64 = 10;
const ALICE: u64 = 11;
const BOB: u64 = 12;

fn campaign(target: u128, deadline: u64) -> Crowdfunding {
    Crowdfunding::init(target, deadline, 0, OWNER).unwrap()
}

#[test]
fn init_rejects_zero_target() {
    assert!(matches!(
        Crowdfunding::init(0, 100, 0, OWNER),
        Err(CrowdfundingError::InvalidTarget)
    ));
    // The target is checked before the deadline.
    assert!(matches!(
        Crowdfunding::init(0, 0, 5, OWNER),
        Err(CrowdfundingError::InvalidTarget)
    ));
}

#[test]
fn init_rejects_deadline_not_in_future() {
    assert!(matches!(
        Crowdfunding::init(10, 5, 5, OWNER),
        Err(CrowdfundingError::InvalidDeadline)
    ));
    assert!(matches!(
        Crowdfunding::init(10, 4, 5, OWNER),
        Err(CrowdfundingError::InvalidDeadline)
    ));
    assert!(Crowdfunding::init(10, 6, 5, OWNER).is_ok());
}

#[test]
fn status_is_funding_period_until_deadline_inclusive() {
    assert_eq!(evaluate(0, 100, 0, 50), Status::FundingPeriod);
    assert_eq!(evaluate(100, 100, 1_000, 50), Status::FundingPeriod);
    assert_eq!(evaluate(100, 100, u128::MAX, 1), Status::FundingPeriod);
}

#[test]
fn status_after_deadline_follows_balance() {
    assert_eq!(evaluate(101, 100, 50, 50), Status::Successful);
    assert_eq!(evaluate(101, 100, 51, 50), Status::Successful);
    assert_eq!(evaluate(101, 100, 49, 50), Status::Failed);
    assert_eq!(evaluate(u64::MAX, 100, 0, 1), Status::Failed);
    assert_eq!(evaluate(101, 100, 49, 50), evaluate(101, 100, 49, 50));
}

#[test]
fn ledger_total_matches_funds_while_funding() {
    let mut c = campaign(1_000, 100);
    assert_eq!(c.fund(ALICE, 30, 1), Ok(()));
    assert_eq!(c.fund(BOB, 20, 2), Ok(()));
    assert_eq!(c.fund(ALICE, 5, 100), Ok(()));
    assert_eq!(c.fund(BOB, 7, 101), Err(CrowdfundingError::FundingClosed));
    assert_eq!(c.deposit(ALICE), 35);
    assert_eq!(c.deposit(BOB), 20);
    assert_eq!(c.deposit(ALICE) + c.deposit(BOB), c.get_current_funds());
    assert_eq!(c.get_current_funds(), 55);
}

#[test]
fn fund_adds_exactly_the_amount() {
    let mut c = campaign(1_000, 100);
    assert_eq!(c.fund(ALICE, 40, 10), Ok(()));
    let before_funds = c.get_current_funds();
    let before_deposit = c.deposit(ALICE);
    assert_eq!(c.fund(ALICE, 25, 11), Ok(()));
    assert_eq!(c.get_current_funds(), before_funds + 25);
    assert_eq!(c.deposit(ALICE), before_deposit + 25);
    assert_eq!(c.deposit(BOB), 0);
}

#[test]
fn fund_large_amounts() {
    let mut c = campaign(u128::MAX, 100);
    assert_eq!(c.fund(ALICE, u128::MAX - 1, 0), Ok(()));
    assert_eq!(c.fund(BOB, 1, 0), Ok(()));
    assert_eq!(c.get_current_funds(), u128::MAX);
    assert_eq!(c.status(101), Status::Successful);
}

#[test]
fn refund_is_paid_once() {
    let mut c = campaign(1_000, 100);
    assert_eq!(c.fund(ALICE, 30, 1), Ok(()));
    assert_eq!(c.fund(BOB, 20, 2), Ok(()));
    assert_eq!(c.status(101), Status::Failed);
    assert_eq!(c.claim(ALICE, 101), Ok(30));
    assert_eq!(c.deposit(ALICE), 0);
    assert_eq!(c.get_current_funds(), 20);
    assert_eq!(c.claim(ALICE, 150), Ok(0));
    assert_eq!(c.get_current_funds(), 20);
    assert_eq!(c.deposit(BOB), 20);
    assert_eq!(c.claim(BOB, 200), Ok(20));
    assert_eq!(c.get_current_funds(), 0);
}

#[test]
fn refund_without_deposit_is_no_op() {
    let mut c = campaign(1_000, 100);
    assert_eq!(c.fund(ALICE, 30, 1), Ok(()));
    assert_eq!(c.claim(BOB, 101), Ok(0));
    assert_eq!(c.claim(OWNER, 101), Ok(0));
    assert_eq!(c.get_current_funds(), 30);
    assert_eq!(c.deposit(ALICE), 30);
}

#[test]
fn only_owner_claims_successful_campaign() {
    let mut c = campaign(50, 100);
    assert_eq!(c.fund(ALICE, 30, 1), Ok(()));
    assert_eq!(c.fund(BOB, 25, 2), Ok(()));
    assert_eq!(c.status(101), Status::Successful);
    assert_eq!(c.claim(ALICE, 101), Err(CrowdfundingError::Unauthorized));
    assert_eq!(c.get_current_funds(), 55);
    assert_eq!(c.claim(OWNER, 101), Ok(55));
    assert_eq!(c.get_current_funds(), 0);
    assert_eq!(c.claim(OWNER, 102), Ok(0));
    assert_eq!(c.get_current_funds(), 0);
}

#[test]
fn refund_after_owner_withdrawal_is_uncovered() {
    let mut c = campaign(50, 100);
    assert_eq!(c.fund(ALICE, 60, 1), Ok(()));
    assert_eq!(c.claim(OWNER, 101), Ok(60));
    assert_eq!(c.status(102), Status::Failed);
    assert_eq!(c.claim(ALICE, 102), Err(CrowdfundingError::InsufficientFunds));
    assert_eq!(c.deposit(ALICE), 60);
    assert_eq!(c.get_current_funds(), 0);
}

#[test]
fn claim_too_early_for_everyone() {
    let mut c = campaign(50, 100);
    assert_eq!(c.fund(ALICE, 60, 1), Ok(()));
    assert_eq!(c.claim(OWNER, 0), Err(CrowdfundingError::ClaimTooEarly));
    assert_eq!(c.claim(ALICE, 50), Err(CrowdfundingError::ClaimTooEarly));
    assert_eq!(c.claim(BOB, 100), Err(CrowdfundingError::ClaimTooEarly));
    assert_eq!(c.get_current_funds(), 60);
    assert_eq!(c.deposit(ALICE), 60);
}
