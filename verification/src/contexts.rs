//! The accounts that one invocation of a transition works on, already resolved
//! and authenticated, together with the time read once for that invocation.

use vstd::prelude::*;
use crate::types::{CampaignAccount, DonationAccount, ProposalAccount, Pubkey, VoteAccount};

verus! {

/// Accounts of `initialize_campaign`.
#[derive(Clone, Copy, Debug, PartialEq, Eq)]
pub struct InitializeCampaign {
    /// The record to fill.
    pub campaign: CampaignAccount,
    pub admin: Pubkey,
}

/// Accounts of `donate`.
#[derive(Clone, Copy, Debug, PartialEq, Eq)]
pub struct Donate {
    pub campaign_key: Pubkey,
    pub campaign: CampaignAccount,
    /// Address of the campaign's treasury.
    pub treasury: Pubkey,
    /// The donor's record for this campaign, `None` before the first donation.
    pub donation: Option<DonationAccount>,
    pub donor: Pubkey,
    pub now: i64,
}

/// Accounts of `create_proposal`.
#[derive(Clone, Copy, Debug, PartialEq, Eq)]
pub struct CreateProposal {
    /// The record to fill, newly created for this campaign and proposer.
    pub proposal: ProposalAccount,
    pub campaign_key: Pubkey,
    pub campaign: CampaignAccount,
    pub proposer: Pubkey,
    pub now: i64,
}

/// Accounts of `vote`.
#[derive(Clone, Copy, Debug, PartialEq, Eq)]
pub struct Vote {
    pub proposal: ProposalAccount,
    /// The marker newly created for this proposal and voter.
    pub vote_record: VoteAccount,
    pub voter: Pubkey,
}

/// Accounts of `execute_proposal`.
#[derive(Clone, Copy, Debug, PartialEq, Eq)]
pub struct ExecuteProposal {
    pub proposal: ProposalAccount,
    pub campaign: CampaignAccount,
    /// Address of the campaign's treasury.
    pub treasury: Pubkey,
    /// The account that the caller asks to be paid.
    pub recipient: Pubkey,
    pub now: i64,
}

/// Accounts of `refund`.
#[derive(Clone, Copy, Debug, PartialEq, Eq)]
pub struct Refund {
    pub campaign_key: Pubkey,
    pub campaign: CampaignAccount,
    /// Address of the campaign's treasury.
    pub treasury: Pubkey,
    /// What the treasury holds.
    pub treasury_balance: u64,
    pub donation: DonationAccount,
    pub donor: Pubkey,
    pub now: i64,
}

} // verus!
