//! The six transitions of a campaign. Each one reads the accounts it was
//! handed, checks its guards in a fixed order, and either refuses with the
//! first guard that fails, leaving everything untouched, or applies its effect
//! and names the one transfer that the ledger is to carry out.

use vstd::prelude::*;
use crate::types::{
    CampaignAccount, CustomError, DonationAccount, ProposalAccount, Pubkey, Transfer,
};
use crate::contexts::{CreateProposal, Donate, ExecuteProposal, InitializeCampaign, Refund, Vote};

verus! {

/// A campaign as it stands right after creation.
pub open spec fn fresh_campaign(admin: Pubkey, target_amount: u64, deadline: i64) -> CampaignAccount {
    CampaignAccount {
        admin,
        target_amount,
        total_donated: 0,
        deadline,
        is_active: true,
        has_executed_proposal: false,
    }
}

/// A proposal as it stands right after creation.
pub open spec fn fresh_proposal(
    campaign: Pubkey,
    proposer: Pubkey,
    recipient_wallet: Pubkey,
    recipient_identity_hash: [u8; 32],
    amount: u64,
) -> ProposalAccount {
    ProposalAccount {
        campaign,
        proposer,
        recipient_wallet,
        recipient_identity_hash,
        amount,
        yes_votes: 0,
        no_votes: 0,
        executed: false,
    }
}

/// The record belongs to this campaign and this donor.
pub open spec fn donation_bound_to(d: DonationAccount, campaign: Pubkey, donor: Pubkey) -> bool {
    d.campaign == campaign && d.donor == donor
}

/// What the donor has given so far: nothing where no record exists yet.
pub open spec fn donated_so_far(ctx: Donate) -> u64 {
    match ctx.donation {
        Some(d) => d.amount,
        None => 0,
    }
}

/// The first guard of `donate` that fails, if any.
pub open spec fn donate_error(ctx: Donate, amount: u64) -> Option<CustomError> {
    if !ctx.campaign.is_active {
        Some(CustomError::CampaignInactive)
    } else if ctx.now > ctx.campaign.deadline {
        Some(CustomError::CampaignExpired)
    } else if ctx.donation is Some && !donation_bound_to(
        ctx.donation->Some_0,
        ctx.campaign_key,
        ctx.donor,
    ) {
        Some(CustomError::InvalidDonationAccount)
    } else if ctx.campaign.total_donated + amount > u64::MAX || donated_so_far(ctx) + amount
        > u64::MAX {
        Some(CustomError::ArithmeticOverflow)
    } else {
        None
    }
}

/// The accounts after a donation that was accepted.
pub open spec fn donate_effect(ctx: Donate, amount: u64) -> Donate {
    Donate {
        campaign: CampaignAccount {
            total_donated: (ctx.campaign.total_donated + amount) as u64,
            ..ctx.campaign
        },
        donation: Some(
            DonationAccount {
                campaign: ctx.campaign_key,
                donor: ctx.donor,
                amount: (donated_so_far(ctx) + amount) as u64,
            },
        ),
        ..ctx
    }
}

/// The first guard of `create_proposal` that fails, if any.
pub open spec fn create_proposal_error(campaign: CampaignAccount, now: i64) -> Option<CustomError> {
    if !campaign.is_active {
        Some(CustomError::CampaignInactive)
    } else if now > campaign.deadline {
        Some(CustomError::CampaignExpired)
    } else {
        None
    }
}

/// The first guard of `vote` that fails, if any.
pub open spec fn vote_error(ctx: Vote, approve: bool) -> Option<CustomError> {
    if ctx.proposal.executed {
        Some(CustomError::ProposalAlreadyExecuted)
    } else if approve && ctx.proposal.yes_votes == u64::MAX {
        Some(CustomError::ArithmeticOverflow)
    } else if !approve && ctx.proposal.no_votes == u64::MAX {
        Some(CustomError::ArithmeticOverflow)
    } else {
        None
    }
}

/// The proposal after a ballot that was accepted.
pub open spec fn vote_effect(p: ProposalAccount, approve: bool) -> ProposalAccount {
    if approve {
        ProposalAccount { yes_votes: (p.yes_votes + 1) as u64, ..p }
    } else {
        ProposalAccount { no_votes: (p.no_votes + 1) as u64, ..p }
    }
}

/// The first guard of `execute_proposal` that fails, if any.
pub open spec fn execute_error(ctx: ExecuteProposal) -> Option<CustomError> {
    if ctx.proposal.executed {
        Some(CustomError::ProposalAlreadyExecuted)
    } else if ctx.campaign.has_executed_proposal {
        Some(CustomError::ProposalAlreadyExecuted)
    } else if !ctx.campaign.is_active {
        Some(CustomError::CampaignInactive)
    } else if ctx.now > ctx.campaign.deadline {
        Some(CustomError::CampaignExpired)
    } else if !ctx.proposal.passes() {
        Some(CustomError::VoteNotPassed)
    } else if ctx.recipient != ctx.proposal.recipient_wallet {
        Some(CustomError::InvalidRecipient)
    } else {
        None
    }
}

/// The accounts after the payout: the proposal is settled and the campaign is
/// closed for good.
pub open spec fn execute_effect(ctx: ExecuteProposal) -> ExecuteProposal {
    ExecuteProposal {
        proposal: ProposalAccount { executed: true, ..ctx.proposal },
        campaign: CampaignAccount {
            has_executed_proposal: true,
            is_active: false,
            ..ctx.campaign
        },
        ..ctx
    }
}

/// The first guard of `refund` that fails, if any.
pub open spec fn refund_error(ctx: Refund) -> Option<CustomError> {
    if ctx.now <= ctx.campaign.deadline {
        Some(CustomError::CampaignNotExpired)
    } else if ctx.campaign.has_executed_proposal {
        Some(CustomError::ProposalAlreadyExecuted)
    } else if ctx.donation.amount == 0 {
        Some(CustomError::NoDonationToRefund)
    } else if !donation_bound_to(ctx.donation, ctx.campaign_key, ctx.donor) {
        Some(CustomError::InvalidDonationAccount)
    } else if ctx.treasury_balance < ctx.donation.amount {
        Some(CustomError::InsufficientTreasury)
    } else if ctx.campaign.total_donated < ctx.donation.amount {
        Some(CustomError::ArithmeticOverflow)
    } else {
        None
    }
}

/// The accounts after a refund: the donation is settled, the campaign's sum
/// and the treasury are lower by what the donor had given.
pub open spec fn refund_effect(ctx: Refund) -> Refund {
    Refund {
        campaign: CampaignAccount {
            total_donated: (ctx.campaign.total_donated - ctx.donation.amount) as u64,
            ..ctx.campaign
        },
        treasury_balance: (ctx.treasury_balance - ctx.donation.amount) as u64,
        donation: DonationAccount { amount: 0, ..ctx.donation },
        ..ctx
    }
}

/// Fills a newly created campaign record: nothing donated yet, open, no
/// payout made. The target is kept for information and caps nothing; the
/// deadline is taken as given. Never refuses.
pub fn initialize_campaign(ctx: &mut InitializeCampaign, target_amount: u64, deadline: i64) -> (r:
    Result<(), CustomError>)
    ensures
        r is Ok,
        final(ctx).campaign == fresh_campaign(old(ctx).admin, target_amount, deadline),
        final(ctx).admin == old(ctx).admin,
{
    ctx.campaign.admin = ctx.admin;
    ctx.campaign.target_amount = target_amount;
    ctx.campaign.total_donated = 0;
    ctx.campaign.deadline = deadline;
    ctx.campaign.is_active = true;
    ctx.campaign.has_executed_proposal = false;
    Ok(())
}

/// Accepts a donation while the campaign is open and the deadline has not
/// passed. The donor's record is created on the first donation and must be
/// the donor's own on later ones. Both counters grow by `amount`, and the
/// result names the transfer from the donor to the treasury.
pub fn donate(ctx: &mut Donate, amount: u64) -> (r: Result<Transfer, CustomError>)
    ensures
        match r {
            Ok(t) => {
                &&& donate_error(*old(ctx), amount) is None
                &&& *final(ctx) == donate_effect(*old(ctx), amount)
                &&& t == (Transfer { from: old(ctx).donor, to: old(ctx).treasury, amount })
            },
            Err(e) => donate_error(*old(ctx), amount) == Some(e) && *final(ctx) == *old(ctx),
        },
{
    if !ctx.campaign.is_active {
        return Err(CustomError::CampaignInactive);
    }
    if ctx.now > ctx.campaign.deadline {
        return Err(CustomError::CampaignExpired);
    }
    let so_far: u64 = match ctx.donation {
        Some(d) => {
            if !(d.campaign.same(&ctx.campaign_key) && d.donor.same(&ctx.donor)) {
                return Err(CustomError::InvalidDonationAccount);
            }
            d.amount
        },
        None => 0,
    };
    let total: u64 = match ctx.campaign.total_donated.checked_add(amount) {
        Some(v) => v,
        None => {
            return Err(CustomError::ArithmeticOverflow);
        },
    };
    let given: u64 = match so_far.checked_add(amount) {
        Some(v) => v,
        None => {
            return Err(CustomError::ArithmeticOverflow);
        },
    };
    ctx.campaign.total_donated = total;
    ctx.donation = Some(DonationAccount { campaign: ctx.campaign_key, donor: ctx.donor, amount: given });
    Ok(Transfer { from: ctx.donor, to: ctx.treasury, amount })
}

/// Fills a newly created proposal record while the campaign is open and the
/// deadline has not passed: bound to campaign and proposer, recipient, hash
/// and amount as given, no votes, not executed.
pub fn create_proposal(
    ctx: &mut CreateProposal,
    recipient_wallet: Pubkey,
    recipient_identity_hash: [u8; 32],
    amount: u64,
) -> (r: Result<(), CustomError>)
    ensures
        match r {
            Ok(_) => {
                &&& create_proposal_error(old(ctx).campaign, old(ctx).now) is None
                &&& *final(ctx) == (CreateProposal {
                    proposal: fresh_proposal(
                        old(ctx).campaign_key,
                        old(ctx).proposer,
                        recipient_wallet,
                        recipient_identity_hash,
                        amount,
                    ),
                    ..*old(ctx)
                })
            },
            Err(e) => create_proposal_error(old(ctx).campaign, old(ctx).now) == Some(e) && *final(ctx)
                == *old(ctx),
        },
{
    if !ctx.campaign.is_active {
        return Err(CustomError::CampaignInactive);
    }
    if ctx.now > ctx.campaign.deadline {
        return Err(CustomError::CampaignExpired);
    }
    ctx.proposal = ProposalAccount {
        campaign: ctx.campaign_key,
        proposer: ctx.proposer,
        recipient_wallet,
        recipient_identity_hash,
        amount,
        yes_votes: 0,
        no_votes: 0,
        executed: false,
    };
    Ok(())
}

/// Counts one ballot on a proposal that is not settled yet. Nothing but the
/// one counter changes: recipient and amount stay as they were created.
pub fn vote(ctx: &mut Vote, approve: bool) -> (r: Result<(), CustomError>)
    ensures
        match r {
            Ok(_) => {
                &&& vote_error(*old(ctx), approve) is None
                &&& *final(ctx) == (Vote {
                    proposal: vote_effect(old(ctx).proposal, approve),
                    ..*old(ctx)
                })
            },
            Err(e) => vote_error(*old(ctx), approve) == Some(e) && *final(ctx) == *old(ctx),
        },
        final(ctx).proposal.same_frozen_fields(old(ctx).proposal),
{
    if ctx.proposal.executed {
        return Err(CustomError::ProposalAlreadyExecuted);
    }
    if approve {
        match ctx.proposal.yes_votes.checked_add(1) {
            Some(v) => {
                ctx.proposal.yes_votes = v;
            },
            None => {
                return Err(CustomError::ArithmeticOverflow);
            },
        }
    } else {
        match ctx.proposal.no_votes.checked_add(1) {
            Some(v) => {
                ctx.proposal.no_votes = v;
            },
            None => {
                return Err(CustomError::ArithmeticOverflow);
            },
        }
    }
    Ok(())
}

/// Pays a proposal out: it must be unsettled, the campaign must not have paid
/// out before, must be open and within its deadline, the yes votes must
/// strictly outnumber the no votes, and the recipient handed in must be the
/// one fixed at creation. On success the proposal is settled, the campaign is
/// closed, and the result names the transfer from the treasury to the
/// recipient.
pub fn execute_proposal(ctx: &mut ExecuteProposal) -> (r: Result<Transfer, CustomError>)
    ensures
        match r {
            Ok(t) => {
                &&& execute_error(*old(ctx)) is None
                &&& *final(ctx) == execute_effect(*old(ctx))
                &&& t == (Transfer {
                    from: old(ctx).treasury,
                    to: old(ctx).proposal.recipient_wallet,
                    amount: old(ctx).proposal.amount,
                })
            },
            Err(e) => execute_error(*old(ctx)) == Some(e) && *final(ctx) == *old(ctx),
        },
        final(ctx).proposal.same_frozen_fields(old(ctx).proposal),
        old(ctx).campaign.has_executed_proposal ==> r == Err::<Transfer, CustomError>(
            CustomError::ProposalAlreadyExecuted,
        ),
        old(ctx).now > old(ctx).campaign.deadline ==> r is Err,
{
    if ctx.proposal.executed {
        return Err(CustomError::ProposalAlreadyExecuted);
    }
    if ctx.campaign.has_executed_proposal {
        return Err(CustomError::ProposalAlreadyExecuted);
    }
    if !ctx.campaign.is_active {
        return Err(CustomError::CampaignInactive);
    }
    if ctx.now > ctx.campaign.deadline {
        return Err(CustomError::CampaignExpired);
    }
    if !(ctx.proposal.yes_votes > ctx.proposal.no_votes) {
        return Err(CustomError::VoteNotPassed);
    }
    if !ctx.recipient.same(&ctx.proposal.recipient_wallet) {
        return Err(CustomError::InvalidRecipient);
    }
    ctx.proposal.executed = true;
    ctx.campaign.has_executed_proposal = true;
    ctx.campaign.is_active = false;
    Ok(Transfer { from: ctx.treasury, to: ctx.recipient, amount: ctx.proposal.amount })
}

/// Gives a donor everything back once the deadline has passed, unless the
/// campaign has paid out. The donation must be open and the donor's own, and
/// the treasury must hold it. On success the donation is settled at zero,
/// the campaign's sum and the treasury are lower by it, and the result names
/// the transfer from the treasury to the donor.
pub fn refund(ctx: &mut Refund) -> (r: Result<Transfer, CustomError>)
    ensures
        match r {
            Ok(t) => {
                &&& refund_error(*old(ctx)) is None
                &&& *final(ctx) == refund_effect(*old(ctx))
                &&& t == (Transfer {
                    from: old(ctx).treasury,
                    to: old(ctx).donor,
                    amount: old(ctx).donation.amount,
                })
            },
            Err(e) => refund_error(*old(ctx)) == Some(e) && *final(ctx) == *old(ctx),
        },
        old(ctx).campaign.has_executed_proposal ==> r is Err,
{
    if ctx.now <= ctx.campaign.deadline {
        return Err(CustomError::CampaignNotExpired);
    }
    if ctx.campaign.has_executed_proposal {
        return Err(CustomError::ProposalAlreadyExecuted);
    }
    let amount: u64 = ctx.donation.amount;
    if amount == 0 {
        return Err(CustomError::NoDonationToRefund);
    }
    if !(ctx.donation.campaign.same(&ctx.campaign_key) && ctx.donation.donor.same(&ctx.donor)) {
        return Err(CustomError::InvalidDonationAccount);
    }
    if ctx.treasury_balance < amount {
        return Err(CustomError::InsufficientTreasury);
    }
    let total: u64 = match ctx.campaign.total_donated.checked_sub(amount) {
        Some(v) => v,
        None => {
            return Err(CustomError::ArithmeticOverflow);
        },
    };
    ctx.campaign.total_donated = total;
    ctx.treasury_balance = ctx.treasury_balance - amount;
    ctx.donation.amount = 0;
    Ok(Transfer { from: ctx.treasury, to: ctx.donor, amount })
}

} // verus!
