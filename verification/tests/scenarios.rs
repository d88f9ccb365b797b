use charity_fund::{CustomError, Fund, FundError, Pubkey, Transfer};

const T: i64 = 1_700_000_000;

fn key(n: u8) -> Pubkey {
    Pubkey::new_from_array([n; 32])
}

fn funded_campaign() -> Fund {
    let mut fund = Fund::new(key(1), key(2), key(3), 1000, T + 100);
    assert_eq!(
        fund.donate(key(10), 300, T + 1),
        Ok(Transfer { from: key(10), to: key(2), amount: 300 })
    );
    assert_eq!(
        fund.donate(key(11), 300, T + 2),
        Ok(Transfer { from: key(11), to: key(2), amount: 300 })
    );
    fund
}

fn approved_campaign() -> Fund {
    let mut fund = funded_campaign();
    assert_eq!(fund.create_proposal(key(20), key(30), [7; 32], 500, T + 2), Ok(()));
    assert_eq!(fund.vote(key(20), key(40), true), Ok(()));
    assert_eq!(fund.vote(key(20), key(41), true), Ok(()));
    assert_eq!(fund.vote(key(20), key(42), false), Ok(()));
    fund
}

#[test]
fn two_donations_add_up() {
    let fund = funded_campaign();
    assert_eq!(fund.campaign.total_donated, 600);
    assert_eq!(fund.treasury_balance, 600);
    assert_eq!(fund.campaign.target_amount, 1000);
    assert_eq!(fund.donation_of(key(10)).map(|d| d.amount), Some(300));
    assert_eq!(fund.donation_of(key(11)).map(|d| d.amount), Some(300));
    assert_eq!(fund.donation_of(key(12)), None);
}

#[test]
fn approved_proposal_is_paid_once() {
    let mut fund = approved_campaign();
    let proposal = fund.proposal_of(key(20)).unwrap();
    assert_eq!(proposal.yes_votes, 2);
    assert_eq!(proposal.no_votes, 1);
    assert_eq!(
        fund.execute_proposal(key(20), key(30), T + 3),
        Ok(Transfer { from: key(2), to: key(30), amount: 500 })
    );
    assert_eq!(fund.treasury_balance, 100);
    assert!(!fund.campaign.is_active);
    assert!(fund.campaign.has_executed_proposal);
    assert!(fund.proposal_of(key(20)).unwrap().executed);
    assert_eq!(fund.campaign.total_donated, 600);
}

#[test]
fn second_execution_is_refused() {
    let mut fund = approved_campaign();
    assert_eq!(fund.create_proposal(key(21), key(31), [8; 32], 50, T + 2), Ok(()));
    assert_eq!(fund.vote(key(21), key(40), true), Ok(()));
    assert!(fund.execute_proposal(key(20), key(30), T + 3).is_ok());
    let after = fund.treasury_balance;
    assert_eq!(
        fund.execute_proposal(key(20), key(30), T + 4),
        Err(FundError::Program(CustomError::ProposalAlreadyExecuted))
    );
    assert_eq!(
        fund.execute_proposal(key(21), key(31), T + 4),
        Err(FundError::Program(CustomError::ProposalAlreadyExecuted))
    );
    assert_eq!(fund.treasury_balance, after);
    assert!(!fund.proposal_of(key(21)).unwrap().executed);
}

#[test]
fn refund_after_deadline_settles_the_donation() {
    let mut fund = funded_campaign();
    assert_eq!(
        fund.refund(key(10), T + 101),
        Ok(Transfer { from: key(2), to: key(10), amount: 300 })
    );
    assert_eq!(fund.donation_of(key(10)), None);
    assert_eq!(fund.campaign.total_donated, 300);
    assert_eq!(fund.treasury_balance, 300);
    assert_eq!(
        fund.refund(key(10), T + 101),
        Err(FundError::Program(CustomError::NoDonationToRefund))
    );
    assert_eq!(fund.campaign.total_donated, 300);
    assert_eq!(fund.donation_of(key(11)).map(|d| d.amount), Some(300));
}

#[test]
fn refund_before_deadline_is_refused() {
    let mut fund = funded_campaign();
    assert_eq!(
        fund.refund(key(10), T + 100),
        Err(FundError::Program(CustomError::CampaignNotExpired))
    );
    assert_eq!(fund.campaign.total_donated, 600);
}

#[test]
fn tie_does_not_pass() {
    let mut fund = funded_campaign();
    assert_eq!(fund.create_proposal(key(20), key(30), [7; 32], 500, T + 2), Ok(()));
    assert_eq!(fund.vote(key(20), key(40), true), Ok(()));
    assert_eq!(fund.vote(key(20), key(41), false), Ok(()));
    assert_eq!(
        fund.execute_proposal(key(20), key(30), T + 3),
        Err(FundError::Program(CustomError::VoteNotPassed))
    );
    assert_eq!(fund.treasury_balance, 600);
    assert!(fund.campaign.is_active);
    assert!(!fund.campaign.has_executed_proposal);
}

#[test]
fn no_refund_after_payout() {
    let mut fund = approved_campaign();
    assert!(fund.execute_proposal(key(20), key(30), T + 3).is_ok());
    assert_eq!(
        fund.refund(key(11), T + 101),
        Err(FundError::Program(CustomError::ProposalAlreadyExecuted))
    );
    assert_eq!(fund.treasury_balance, 100);
    assert_eq!(fund.donation_of(key(11)).map(|d| d.amount), Some(300));
}

#[test]
fn no_payout_after_deadline() {
    let mut fund = approved_campaign();
    assert_eq!(
        fund.execute_proposal(key(20), key(30), T + 101),
        Err(FundError::Program(CustomError::CampaignExpired))
    );
    assert_eq!(
        fund.execute_proposal(key(20), key(30), T + 100),
        Ok(Transfer { from: key(2), to: key(30), amount: 500 })
    );
}

#[test]
fn substituted_recipient_is_refused() {
    let mut fund = approved_campaign();
    assert_eq!(
        fund.execute_proposal(key(20), key(31), T + 3),
        Err(FundError::Program(CustomError::InvalidRecipient))
    );
    assert!(!fund.campaign.has_executed_proposal);
}

#[test]
fn underfunded_treasury_blocks_the_payout() {
    let mut fund = funded_campaign();
    assert_eq!(fund.create_proposal(key(20), key(30), [7; 32], 601, T + 2), Ok(()));
    assert_eq!(fund.vote(key(20), key(40), true), Ok(()));
    assert_eq!(
        fund.execute_proposal(key(20), key(30), T + 3),
        Err(FundError::Program(CustomError::InsufficientTreasury))
    );
    assert!(fund.campaign.is_active);
    assert!(!fund.proposal_of(key(20)).unwrap().executed);
}

#[test]
fn one_ballot_per_voter() {
    let mut fund = funded_campaign();
    assert_eq!(fund.create_proposal(key(20), key(30), [7; 32], 500, T + 2), Ok(()));
    assert!(!fund.has_voted(key(20), key(40)));
    assert_eq!(fund.vote(key(20), key(40), true), Ok(()));
    assert!(fund.has_voted(key(20), key(40)));
    assert_eq!(fund.vote(key(20), key(40), false), Err(FundError::AccountInUse));
    assert_eq!(fund.vote(key(20), key(40), true), Err(FundError::AccountInUse));
    let proposal = fund.proposal_of(key(20)).unwrap();
    assert_eq!(proposal.yes_votes + proposal.no_votes, 1);
    assert_eq!(fund.votes.len(), 1);
    assert_eq!(fund.vote(key(99), key(40), true), Err(FundError::AccountNotFound));
}

#[test]
fn one_proposal_per_proposer() {
    let mut fund = funded_campaign();
    assert_eq!(fund.create_proposal(key(20), key(30), [7; 32], 500, T + 2), Ok(()));
    assert_eq!(
        fund.create_proposal(key(20), key(31), [9; 32], 1, T + 2),
        Err(FundError::AccountInUse)
    );
    assert_eq!(fund.proposals.len(), 1);
    assert_eq!(fund.create_proposal(key(21), key(31), [9; 32], 1, T + 2), Ok(()));
    assert_eq!(fund.proposals.len(), 2);
}

#[test]
fn recipient_and_amount_survive_votes_and_payout() {
    let mut fund = approved_campaign();
    let created = fund.proposal_of(key(20)).unwrap();
    assert_eq!(created.campaign, key(1));
    assert_eq!(created.proposer, key(20));
    assert_eq!(created.recipient_wallet, key(30));
    assert_eq!(created.recipient_identity_hash, [7; 32]);
    assert_eq!(created.amount, 500);
    assert!(fund.execute_proposal(key(20), key(30), T + 3).is_ok());
    let settled = fund.proposal_of(key(20)).unwrap();
    assert_eq!(settled.recipient_wallet, key(30));
    assert_eq!(settled.recipient_identity_hash, [7; 32]);
    assert_eq!(settled.amount, 500);
}

#[test]
fn votes_are_refused_once_settled() {
    let mut fund = approved_campaign();
    assert!(fund.execute_proposal(key(20), key(30), T + 3).is_ok());
    assert_eq!(
        fund.vote(key(20), key(43), true),
        Err(FundError::Program(CustomError::ProposalAlreadyExecuted))
    );
    assert!(!fund.has_voted(key(20), key(43)));
}

#[test]
fn closed_campaign_takes_no_donation_or_proposal() {
    let mut fund = approved_campaign();
    assert!(fund.execute_proposal(key(20), key(30), T + 3).is_ok());
    assert_eq!(
        fund.donate(key(10), 1, T + 4),
        Err(FundError::Program(CustomError::CampaignInactive))
    );
    assert_eq!(
        fund.create_proposal(key(22), key(30), [0; 32], 1, T + 4),
        Err(FundError::Program(CustomError::CampaignInactive))
    );
}

#[test]
fn expired_campaign_takes_no_donation_or_proposal() {
    let mut fund = funded_campaign();
    assert_eq!(
        fund.donate(key(10), 1, T + 101),
        Err(FundError::Program(CustomError::CampaignExpired))
    );
    assert_eq!(
        fund.create_proposal(key(22), key(30), [0; 32], 1, T + 101),
        Err(FundError::Program(CustomError::CampaignExpired))
    );
    assert_eq!(fund.donate(key(10), 1, T + 100), Ok(Transfer { from: key(10), to: key(2), amount: 1 }));
    assert_eq!(fund.donation_of(key(10)).map(|d| d.amount), Some(301));
}

#[test]
fn sum_of_records_matches_after_mixed_calls() {
    let mut fund = funded_campaign();
    assert!(fund.donate(key(10), 25, T + 3).is_ok());
    assert!(fund.donate(key(12), 0, T + 3).is_ok());
    assert!(fund.donate(key(13), 75, T + 4).is_ok());
    let sum: u64 = fund.donations.iter().map(|d| d.amount).sum();
    assert_eq!(sum, 700);
    assert_eq!(fund.campaign.total_donated, 700);
    assert!(fund.refund(key(11), T + 200).is_ok());
    assert_eq!(
        fund.refund(key(12), T + 200),
        Err(FundError::Program(CustomError::NoDonationToRefund))
    );
    let sum: u64 = fund.donations.iter().map(|d| d.amount).sum();
    assert_eq!(sum, 400);
    assert_eq!(fund.campaign.total_donated, 400);
    assert_eq!(fund.treasury_balance, 400);
}

#[test]
fn treasury_overflow_is_refused() {
    let mut fund = Fund::new(key(1), key(2), key(3), 0, T);
    assert!(fund.donate(key(10), u64::MAX, T).is_ok());
    assert_eq!(
        fund.donate(key(11), 1, T),
        Err(FundError::Program(CustomError::ArithmeticOverflow))
    );
    assert_eq!(fund.campaign.total_donated, u64::MAX);
    assert_eq!(fund.donation_of(key(11)), None);
}

#[test]
fn new_campaign_has_empty_books() {
    let fund = Fund::new(key(1), key(2), key(3), 1000, T + 100);
    assert_eq!(fund.campaign_key, key(1));
    assert_eq!(fund.treasury, key(2));
    assert_eq!(fund.campaign.admin, key(3));
    assert_eq!(fund.campaign.target_amount, 1000);
    assert_eq!(fund.campaign.deadline, T + 100);
    assert_eq!(fund.campaign.total_donated, 0);
    assert!(fund.campaign.is_active);
    assert!(!fund.campaign.has_executed_proposal);
    assert_eq!(fund.treasury_balance, 0);
    assert!(fund.donations.is_empty());
    assert!(fund.proposals.is_empty());
    assert!(fund.votes.is_empty());
}
