//! Lifecycle engine of a crowdfunded campaign: donors pool funds in a treasury,
//! a proposer nominates one recipient, stakeholders vote, and the treasury pays
//! out at most once before the deadline; afterwards donors reclaim their own
//! contributions.
//!
//! `types` holds the persisted entities, `contexts` the resolved accounts that
//! each transition works on, `address` the derivation of sub-account
//! addresses, `engine` the six transitions with their guards, `fund` a whole
//! campaign with its records, kept consistent by an invariant that every
//! operation preserves, `tally` the sums that the invariant is stated with,
//! and `laws` what follows for a campaign's whole history.

pub mod types;
pub mod contexts;
pub mod address;
pub mod engine;
pub mod tally;
pub mod fund;
pub mod laws;

pub use crate::types::{
    CampaignAccount, CustomError, DonationAccount, ProposalAccount, Pubkey, Transfer, VoteAccount,
};
pub use crate::contexts::{
    CreateProposal, Donate, ExecuteProposal, InitializeCampaign, Refund, Vote,
};
pub use crate::engine::{
    create_proposal, donate, execute_proposal, initialize_campaign, refund, vote,
};
pub use crate::fund::{Fund, FundError, FundView, VoteKey};
pub use crate::address::{derive_subaccount, is_treasury_of, tag_of, treasury_address, Role};
