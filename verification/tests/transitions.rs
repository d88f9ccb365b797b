use charity_fund::{
    create_proposal, donate, execute_proposal, initialize_campaign, refund, vote, CampaignAccount,
    CreateProposal, CustomError, Donate, DonationAccount, ExecuteProposal, InitializeCampaign,
    ProposalAccount, Pubkey, Refund, Transfer, Vote, VoteAccount,
};

fn id(n: u8) -> Pubkey {
    Pubkey::new_from_array([n; 32])
}

fn open_campaign() -> CampaignAccount {
    CampaignAccount {
        admin: id(3),
        target_amount: 1000,
        total_donated: 600,
        deadline: 100,
        is_active: true,
        has_executed_proposal: false,
    }
}

fn passing_proposal() -> ProposalAccount {
    ProposalAccount {
        campaign: id(1),
        proposer: id(20),
        recipient_wallet: id(30),
        recipient_identity_hash: [7; 32],
        amount: 500,
        yes_votes: 2,
        no_votes: 1,
        executed: false,
    }
}

fn donate_accounts(donation: Option<DonationAccount>) -> Donate {
    Donate {
        campaign_key: id(1),
        campaign: open_campaign(),
        treasury: id(2),
        donation,
        donor: id(10),
        now: 50,
    }
}

fn execute_accounts() -> ExecuteProposal {
    ExecuteProposal {
        proposal: passing_proposal(),
        campaign: open_campaign(),
        treasury: id(2),
        recipient: id(30),
        now: 50,
    }
}

fn refund_accounts() -> Refund {
    Refund {
        campaign_key: id(1),
        campaign: open_campaign(),
        treasury: id(2),
        treasury_balance: 650,
        donation: DonationAccount { campaign: id(1), donor: id(10), amount: 300 },
        donor: id(10),
        now: 101,
    }
}

#[test]
fn keys_compare_byte_for_byte() {
    let mut bytes = [5u8; 32];
    assert!(id(5).same(&Pubkey::new_from_array(bytes)));
    bytes[31] = 6;
    assert!(!id(5).same(&Pubkey::new_from_array(bytes)));
    assert_eq!(Pubkey::new_from_array(bytes).to_bytes(), bytes);
}

#[test]
fn initialize_fills_the_record() {
    let stale = CampaignAccount {
        admin: id(9),
        target_amount: 5,
        total_donated: 77,
        deadline: -1,
        is_active: false,
        has_executed_proposal: true,
    };
    let mut ctx = InitializeCampaign { campaign: stale, admin: id(3) };
    assert_eq!(initialize_campaign(&mut ctx, 1000, 100), Ok(()));
    assert_eq!(
        ctx.campaign,
        CampaignAccount {
            admin: id(3),
            target_amount: 1000,
            total_donated: 0,
            deadline: 100,
            is_active: true,
            has_executed_proposal: false,
        }
    );
}

#[test]
fn initialize_accepts_a_past_deadline() {
    let mut ctx = InitializeCampaign { campaign: open_campaign(), admin: id(3) };
    assert_eq!(initialize_campaign(&mut ctx, 0, i64::MIN), Ok(()));
    assert_eq!(ctx.campaign.deadline, i64::MIN);
    assert_eq!(ctx.campaign.target_amount, 0);
}

#[test]
fn first_donation_creates_the_record() {
    let mut ctx = donate_accounts(None);
    assert_eq!(donate(&mut ctx, 40), Ok(Transfer { from: id(10), to: id(2), amount: 40 }));
    assert_eq!(ctx.donation, Some(DonationAccount { campaign: id(1), donor: id(10), amount: 40 }));
    assert_eq!(ctx.campaign.total_donated, 640);
}

#[test]
fn later_donation_accumulates() {
    let mut ctx =
        donate_accounts(Some(DonationAccount { campaign: id(1), donor: id(10), amount: 300 }));
    assert_eq!(donate(&mut ctx, 40), Ok(Transfer { from: id(10), to: id(2), amount: 40 }));
    assert_eq!(ctx.donation, Some(DonationAccount { campaign: id(1), donor: id(10), amount: 340 }));
    assert_eq!(ctx.campaign.total_donated, 640);
}

#[test]
fn donation_may_exceed_the_target() {
    let mut ctx = donate_accounts(None);
    assert!(donate(&mut ctx, 5000).is_ok());
    assert_eq!(ctx.campaign.total_donated, 5600);
}

#[test]
fn zero_donation_succeeds_and_changes_no_sum() {
    let mut ctx = donate_accounts(None);
    assert_eq!(donate(&mut ctx, 0), Ok(Transfer { from: id(10), to: id(2), amount: 0 }));
    assert_eq!(ctx.campaign.total_donated, 600);
    assert_eq!(ctx.donation.map(|d| d.amount), Some(0));
}

#[test]
fn donate_guards_in_order() {
    let foreign = Some(DonationAccount { campaign: id(1), donor: id(11), amount: 1 });
    let mut ctx = donate_accounts(foreign);
    ctx.campaign.is_active = false;
    ctx.now = 101;
    let before = ctx;
    assert_eq!(donate(&mut ctx, 1), Err(CustomError::CampaignInactive));
    assert_eq!(ctx, before);
    ctx.campaign.is_active = true;
    assert_eq!(donate(&mut ctx, 1), Err(CustomError::CampaignExpired));
    ctx.now = 100;
    assert_eq!(donate(&mut ctx, 1), Err(CustomError::InvalidDonationAccount));
    ctx.donation = Some(DonationAccount { campaign: id(9), donor: id(10), amount: 1 });
    let before = ctx;
    assert_eq!(donate(&mut ctx, 1), Err(CustomError::InvalidDonationAccount));
    assert_eq!(ctx, before);
}

#[test]
fn donate_overflow_is_refused() {
    let mut ctx = donate_accounts(None);
    ctx.campaign.total_donated = u64::MAX - 5;
    let before = ctx;
    assert_eq!(donate(&mut ctx, 6), Err(CustomError::ArithmeticOverflow));
    assert_eq!(ctx, before);
    assert!(donate(&mut ctx, 5).is_ok());
    assert_eq!(ctx.campaign.total_donated, u64::MAX);

    let mut ctx =
        donate_accounts(Some(DonationAccount { campaign: id(1), donor: id(10), amount: u64::MAX }));
    ctx.campaign.total_donated = 0;
    assert_eq!(donate(&mut ctx, 1), Err(CustomError::ArithmeticOverflow));
}

#[test]
fn create_proposal_fixes_recipient_and_amount() {
    let mut ctx = CreateProposal {
        proposal: passing_proposal(),
        campaign_key: id(1),
        campaign: open_campaign(),
        proposer: id(21),
        now: 100,
    };
    assert_eq!(create_proposal(&mut ctx, id(31), [8; 32], 250), Ok(()));
    assert_eq!(
        ctx.proposal,
        ProposalAccount {
            campaign: id(1),
            proposer: id(21),
            recipient_wallet: id(31),
            recipient_identity_hash: [8; 32],
            amount: 250,
            yes_votes: 0,
            no_votes: 0,
            executed: false,
        }
    );
}

#[test]
fn create_proposal_guards() {
    let mut ctx = CreateProposal {
        proposal: passing_proposal(),
        campaign_key: id(1),
        campaign: open_campaign(),
        proposer: id(21),
        now: 101,
    };
    let before = ctx;
    assert_eq!(create_proposal(&mut ctx, id(31), [8; 32], 250), Err(CustomError::CampaignExpired));
    assert_eq!(ctx, before);
    ctx.campaign.is_active = false;
    assert_eq!(create_proposal(&mut ctx, id(31), [8; 32], 250), Err(CustomError::CampaignInactive));
}

#[test]
fn vote_counts_one_side() {
    let mut ctx = Vote { proposal: passing_proposal(), vote_record: VoteAccount {}, voter: id(40) };
    assert_eq!(vote(&mut ctx, true), Ok(()));
    assert_eq!((ctx.proposal.yes_votes, ctx.proposal.no_votes), (3, 1));
    assert_eq!(vote(&mut ctx, false), Ok(()));
    assert_eq!((ctx.proposal.yes_votes, ctx.proposal.no_votes), (3, 2));
    assert_eq!(ctx.proposal.recipient_wallet, id(30));
    assert_eq!(ctx.proposal.amount, 500);
}

#[test]
fn vote_guards() {
    let mut ctx = Vote { proposal: passing_proposal(), vote_record: VoteAccount {}, voter: id(40) };
    ctx.proposal.executed = true;
    assert_eq!(vote(&mut ctx, true), Err(CustomError::ProposalAlreadyExecuted));
    ctx.proposal.executed = false;
    ctx.proposal.yes_votes = u64::MAX;
    let before = ctx;
    assert_eq!(vote(&mut ctx, true), Err(CustomError::ArithmeticOverflow));
    assert_eq!(ctx, before);
    assert_eq!(vote(&mut ctx, false), Ok(()));
    ctx.proposal.no_votes = u64::MAX;
    assert_eq!(vote(&mut ctx, false), Err(CustomError::ArithmeticOverflow));
}

#[test]
fn execute_pays_and_closes() {
    let mut ctx = execute_accounts();
    assert_eq!(execute_proposal(&mut ctx), Ok(Transfer { from: id(2), to: id(30), amount: 500 }));
    assert!(ctx.proposal.executed);
    assert!(ctx.campaign.has_executed_proposal);
    assert!(!ctx.campaign.is_active);
    assert_eq!(ctx.campaign.total_donated, 600);
    let before = ctx;
    assert_eq!(execute_proposal(&mut ctx), Err(CustomError::ProposalAlreadyExecuted));
    assert_eq!(ctx, before);
}

#[test]
fn execute_guards_in_order() {
    let mut ctx = execute_accounts();
    ctx.proposal.executed = true;
    ctx.campaign.has_executed_proposal = true;
    ctx.campaign.is_active = false;
    ctx.now = 101;
    ctx.proposal.no_votes = 2;
    ctx.recipient = id(31);
    assert_eq!(execute_proposal(&mut ctx), Err(CustomError::ProposalAlreadyExecuted));
    ctx.proposal.executed = false;
    assert_eq!(execute_proposal(&mut ctx), Err(CustomError::ProposalAlreadyExecuted));
    ctx.campaign.has_executed_proposal = false;
    assert_eq!(execute_proposal(&mut ctx), Err(CustomError::CampaignInactive));
    ctx.campaign.is_active = true;
    assert_eq!(execute_proposal(&mut ctx), Err(CustomError::CampaignExpired));
    ctx.now = 100;
    assert_eq!(execute_proposal(&mut ctx), Err(CustomError::VoteNotPassed));
    ctx.proposal.no_votes = 1;
    let before = ctx;
    assert_eq!(execute_proposal(&mut ctx), Err(CustomError::InvalidRecipient));
    assert_eq!(ctx, before);
    ctx.recipient = id(30);
    assert!(execute_proposal(&mut ctx).is_ok());
}

#[test]
fn execute_tie_is_refused() {
    let mut ctx = execute_accounts();
    ctx.proposal.yes_votes = 1;
    ctx.proposal.no_votes = 1;
    assert_eq!(execute_proposal(&mut ctx), Err(CustomError::VoteNotPassed));
    assert!(!ctx.proposal.executed);
}

#[test]
fn refund_returns_everything() {
    let mut ctx = refund_accounts();
    assert_eq!(refund(&mut ctx), Ok(Transfer { from: id(2), to: id(10), amount: 300 }));
    assert_eq!(ctx.donation.amount, 0);
    assert_eq!(ctx.campaign.total_donated, 300);
    assert_eq!(ctx.treasury_balance, 350);
    let before = ctx;
    assert_eq!(refund(&mut ctx), Err(CustomError::NoDonationToRefund));
    assert_eq!(ctx, before);
}

#[test]
fn refund_guards_in_order() {
    let mut ctx = refund_accounts();
    ctx.now = 100;
    ctx.campaign.has_executed_proposal = true;
    ctx.donation.amount = 0;
    ctx.donation.donor = id(11);
    assert_eq!(refund(&mut ctx), Err(CustomError::CampaignNotExpired));
    ctx.now = 101;
    assert_eq!(refund(&mut ctx), Err(CustomError::ProposalAlreadyExecuted));
    ctx.campaign.has_executed_proposal = false;
    assert_eq!(refund(&mut ctx), Err(CustomError::NoDonationToRefund));
    ctx.donation.amount = 700;
    assert_eq!(refund(&mut ctx), Err(CustomError::InvalidDonationAccount));
    ctx.donation.donor = id(10);
    ctx.donation.campaign = id(9);
    assert_eq!(refund(&mut ctx), Err(CustomError::InvalidDonationAccount));
    ctx.donation.campaign = id(1);
    let before = ctx;
    assert_eq!(refund(&mut ctx), Err(CustomError::InsufficientTreasury));
    assert_eq!(ctx, before);
    ctx.treasury_balance = 700;
    assert_eq!(refund(&mut ctx), Err(CustomError::ArithmeticOverflow));
    ctx.campaign.total_donated = 700;
    assert_eq!(refund(&mut ctx), Ok(Transfer { from: id(2), to: id(10), amount: 700 }));
    assert_eq!(ctx.campaign.total_donated, 0);
    assert_eq!(ctx.treasury_balance, 0);
}

#[test]
fn every_refusal_has_its_message() {
    assert_eq!(CustomError::CampaignInactive.message(), "Campaign is not active");
    assert_eq!(CustomError::ProposalAlreadyExecuted.message(), "Proposal already executed");
    assert_eq!(CustomError::VoteNotPassed.message(), "Vote has not passed");
    assert_eq!(CustomError::InvalidRecipient.message(), "Invalid recipient wallet");
    let all = [
        CustomError::CampaignInactive,
        CustomError::CampaignExpired,
        CustomError::CampaignNotExpired,
        CustomError::ProposalAlreadyExecuted,
        CustomError::VoteNotPassed,
        CustomError::InvalidRecipient,
        CustomError::InvalidDonationAccount,
        CustomError::NoDonationToRefund,
        CustomError::InsufficientTreasury,
        CustomError::ArithmeticOverflow,
    ];
    for (i, a) in all.iter().enumerate() {
        for (j, b) in all.iter().enumerate() {
            assert_eq!(i == j, a.message() == b.message());
        }
    }
}
