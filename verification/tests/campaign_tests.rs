use crowdfund::campaign::{CampaignInfo, CrowdfundContract};
use crowdfund::errors::Error;

const OWNER: u64 = 1;
const TOKEN: u64 = 2;
const DONOR_A: u64 = 10;
const DONOR_B: u64 = 11;
const GOAL: i128 = 1_000_000;
const DEADLINE: u64 = 1000;

fn setup() -> CrowdfundContract {
    let mut c = CrowdfundContract::new();
    assert_eq!(c.initialize(OWNER, TOKEN, GOAL, DEADLINE, true), Ok(()));
    c
}

#[test]
fn test_initialize() {
    let c = setup();
    let info = c.get_campaign().unwrap();
    assert_eq!(info.goal, 1_000_000);
    assert_eq!(info.total_raised, 0);
    assert!(!info.claimed);
}

#[test]
fn test_donate() {
    let mut c = setup();
    assert_eq!(c.donate(DONOR_A, 100_000, 500, true, true), Ok(100_000));
    let info = c.get_campaign().unwrap();
    assert_eq!(info.total_raised, 100_000);
    assert_eq!(c.get_donation(DONOR_A), 100_000);
}

#[test]
fn initialize_records_the_whole_configuration() {
    let c = setup();
    assert_eq!(
        c.get_campaign(),
        Ok(CampaignInfo {
            owner: OWNER,
            token: TOKEN,
            goal: GOAL,
            deadline: DEADLINE,
            total_raised: 0,
            claimed: false,
        })
    );
}

#[test]
fn initialize_twice_fails_with_no_state_change() {
    let mut c = setup();
    assert_eq!(c.donate(DONOR_A, 5, 500, true, true), Ok(5));
    let before = c.get_campaign();
    assert_eq!(
        c.initialize(OWNER, TOKEN, 77, 9999, true),
        Err(Error::AlreadyInitialized)
    );
    assert_eq!(
        c.initialize(42, 43, 77, 9999, false),
        Err(Error::AlreadyInitialized)
    );
    assert_eq!(c.get_campaign(), before);
    assert_eq!(c.get_donation(DONOR_A), 5);
}

#[test]
fn initialize_requires_owner_authorization() {
    let mut c = CrowdfundContract::new();
    assert_eq!(
        c.initialize(OWNER, TOKEN, GOAL, DEADLINE, false),
        Err(Error::AuthorizationFailed)
    );
    // the failed attempt left the instance uninitialized
    assert_eq!(c.get_campaign(), Err(Error::NotInitialized));
    assert_eq!(c.initialize(OWNER, TOKEN, GOAL, DEADLINE, true), Ok(()));
}

#[test]
fn operations_before_initialize_signal_not_initialized() {
    let mut c = CrowdfundContract::new();
    assert_eq!(
        c.donate(DONOR_A, 100, 0, true, true),
        Err(Error::NotInitialized)
    );
    assert_eq!(c.claim(2000, true, true), Err(Error::NotInitialized));
    assert_eq!(c.get_campaign(), Err(Error::NotInitialized));
    // a missing ledger entry legitimately reads as 0, not as an error
    assert_eq!(c.get_donation(DONOR_A), 0);
}

#[test]
fn donate_requires_donor_authorization() {
    let mut c = setup();
    assert_eq!(
        c.donate(DONOR_A, 100, 500, false, true),
        Err(Error::AuthorizationFailed)
    );
    assert_eq!(c.get_campaign().unwrap().total_raised, 0);
}

#[test]
fn donate_after_deadline_fails_with_campaign_ended() {
    let mut c = setup();
    // regardless of goal status: both below and at the goal
    assert_eq!(
        c.donate(DONOR_A, 100, DEADLINE + 1, true, true),
        Err(Error::CampaignEnded)
    );
    assert_eq!(c.donate(DONOR_A, GOAL, 500, true, true), Ok(GOAL));
    assert_eq!(
        c.donate(DONOR_B, 100, DEADLINE + 1, true, true),
        Err(Error::CampaignEnded)
    );
    assert_eq!(c.get_campaign().unwrap().total_raised, GOAL);
}

#[test]
fn donate_at_the_deadline_is_still_accepted() {
    let mut c = setup();
    assert_eq!(c.donate(DONOR_A, 100, DEADLINE, true, true), Ok(100));
}

#[test]
fn donate_rejects_zero_and_negative_amounts() {
    let mut c = setup();
    assert_eq!(
        c.donate(DONOR_A, 0, 500, true, true),
        Err(Error::InvalidAmount)
    );
    assert_eq!(
        c.donate(DONOR_A, -5, 500, true, true),
        Err(Error::InvalidAmount)
    );
    assert_eq!(c.get_campaign().unwrap().total_raised, 0);
    assert_eq!(c.get_donation(DONOR_A), 0);
}

#[test]
fn failed_transfer_leaves_no_partial_credit() {
    let mut c = setup();
    assert_eq!(
        c.donate(DONOR_A, 100_000, 500, true, false),
        Err(Error::TransferFailed)
    );
    assert_eq!(c.get_campaign().unwrap().total_raised, 0);
    assert_eq!(c.get_donation(DONOR_A), 0);
}

#[test]
fn total_raised_is_the_sum_of_accepted_amounts() {
    let mut c = setup();
    assert_eq!(c.donate(DONOR_A, 100_000, 100, true, true), Ok(100_000));
    // rejected calls change nothing
    assert_eq!(
        c.donate(DONOR_B, 0, 100, true, true),
        Err(Error::InvalidAmount)
    );
    assert_eq!(
        c.donate(DONOR_B, 50, 100, true, false),
        Err(Error::TransferFailed)
    );
    assert_eq!(c.donate(DONOR_B, 200_000, 200, true, true), Ok(300_000));
    assert_eq!(c.donate(DONOR_A, 50_000, 300, true, true), Ok(350_000));
    let info = c.get_campaign().unwrap();
    assert_eq!(info.total_raised, 350_000);
    assert_eq!(c.get_donation(DONOR_A), 150_000);
    assert_eq!(c.get_donation(DONOR_B), 200_000);
}

#[test]
fn get_donation_for_a_never_contributing_identity_is_zero() {
    let mut c = setup();
    assert_eq!(c.get_donation(DONOR_B), 0);
    assert_eq!(c.donate(DONOR_A, 100_000, 500, true, true), Ok(100_000));
    assert_eq!(c.get_donation(DONOR_B), 0);
}

#[test]
fn over_funding_past_the_goal_is_accepted() {
    let mut c = setup();
    assert_eq!(c.donate(DONOR_A, GOAL, 500, true, true), Ok(GOAL));
    assert_eq!(c.donate(DONOR_B, 1, 500, true, true), Ok(GOAL + 1));
    assert_eq!(c.get_campaign().unwrap().total_raised, GOAL + 1);
}

#[test]
fn claim_before_deadline_fails_even_with_goal_met() {
    let mut c = setup();
    assert_eq!(c.donate(DONOR_A, GOAL, 500, true, true), Ok(GOAL));
    assert_eq!(c.claim(DEADLINE, true, true), Err(Error::CampaignStillActive));
    assert!(!c.get_campaign().unwrap().claimed);
}

#[test]
fn claim_requires_owner_authorization() {
    let mut c = setup();
    assert_eq!(c.donate(DONOR_A, GOAL, 500, true, true), Ok(GOAL));
    assert_eq!(
        c.claim(DEADLINE + 1, false, true),
        Err(Error::AuthorizationFailed)
    );
    assert!(!c.get_campaign().unwrap().claimed);
}

#[test]
fn claim_with_goal_unmet_fails_and_changes_nothing() {
    let mut c = setup();
    assert_eq!(c.donate(DONOR_A, 500_000, 500, true, true), Ok(500_000));
    assert_eq!(c.claim(DEADLINE + 1, true, true), Err(Error::GoalNotReached));
    let info = c.get_campaign().unwrap();
    assert_eq!(info.total_raised, 500_000);
    assert!(!info.claimed);
}

#[test]
fn claim_is_not_marked_when_the_transfer_fails() {
    let mut c = setup();
    assert_eq!(c.donate(DONOR_A, GOAL, 500, true, true), Ok(GOAL));
    assert_eq!(c.claim(DEADLINE + 1, true, false), Err(Error::TransferFailed));
    assert!(!c.get_campaign().unwrap().claimed);
    // the claim stays available for a later, successful transfer
    assert_eq!(c.claim(DEADLINE + 1, true, true), Ok(GOAL));
}

#[test]
fn full_campaign_lifecycle_reaches_the_goal_and_claims_once() {
    let mut c = setup();
    assert_eq!(c.donate(DONOR_A, 100_000, 100, true, true), Ok(100_000));
    assert_eq!(c.get_campaign().unwrap().total_raised, 100_000);
    assert_eq!(c.get_donation(DONOR_A), 100_000);
    assert_eq!(c.donate(DONOR_A, 900_000, 1000, true, true), Ok(1_000_000));
    assert_eq!(c.get_campaign().unwrap().total_raised, 1_000_000);
    // the owner receives the whole raised total
    assert_eq!(c.claim(1001, true, true), Ok(1_000_000));
    assert!(c.get_campaign().unwrap().claimed);
}

#[test]
fn claim_succeeds_at_most_once() {
    let mut c = setup();
    assert_eq!(c.donate(DONOR_A, GOAL, 500, true, true), Ok(GOAL));
    assert_eq!(c.claim(DEADLINE + 1, true, true), Ok(GOAL));
    assert_eq!(c.claim(DEADLINE + 1, true, true), Err(Error::AlreadyClaimed));
    assert_eq!(c.claim(DEADLINE + 2, true, false), Err(Error::AlreadyClaimed));
    assert_eq!(c.get_campaign().unwrap().total_raised, GOAL);
}

#[test]
fn missed_goal_leaves_funds_stranded_with_no_refund_path() {
    // after the deadline with the goal unmet, no operation can move the
    // accounted funds: contributions are over and the claim is refused
    let mut c = setup();
    assert_eq!(c.donate(DONOR_A, 500_000, 500, true, true), Ok(500_000));
    assert_eq!(
        c.donate(DONOR_A, 500_000, DEADLINE + 1, true, true),
        Err(Error::CampaignEnded)
    );
    assert_eq!(c.claim(DEADLINE + 1, true, true), Err(Error::GoalNotReached));
    let info = c.get_campaign().unwrap();
    assert_eq!(info.total_raised, 500_000);
    assert!(!info.claimed);
    assert_eq!(c.get_donation(DONOR_A), 500_000);
}

#[test]
fn donate_check_reports_the_first_failing_precondition() {
    let mut c = CrowdfundContract::new();
    assert_eq!(c.donate_check(100, 500, false), Err(Error::AuthorizationFailed));
    assert_eq!(c.donate_check(100, 500, true), Err(Error::NotInitialized));
    assert_eq!(c.initialize(OWNER, TOKEN, GOAL, DEADLINE, true), Ok(()));
    assert_eq!(
        c.donate_check(100, DEADLINE + 1, true),
        Err(Error::CampaignEnded)
    );
    assert_eq!(c.donate_check(0, 500, true), Err(Error::InvalidAmount));
    assert_eq!(c.donate_check(100, 500, true), Ok(()));
}

#[test]
fn claim_check_reports_the_amount_to_release() {
    let mut c = CrowdfundContract::new();
    assert_eq!(c.claim_check(2000, true), Err(Error::NotInitialized));
    assert_eq!(c.initialize(OWNER, TOKEN, GOAL, DEADLINE, true), Ok(()));
    assert_eq!(c.claim_check(2000, false), Err(Error::AuthorizationFailed));
    assert_eq!(c.claim_check(DEADLINE, true), Err(Error::CampaignStillActive));
    assert_eq!(c.claim_check(2000, true), Err(Error::GoalNotReached));
    assert_eq!(c.donate(DONOR_A, GOAL, 500, true, true), Ok(GOAL));
    assert_eq!(c.claim_check(2000, true), Ok(GOAL));
    assert_eq!(c.claim(2000, true, true), Ok(GOAL));
    assert_eq!(c.claim_check(2000, true), Err(Error::AlreadyClaimed));
}
