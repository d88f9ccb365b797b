//! The persisted entities and the plain values that the transitions exchange.

use vstd::prelude::*;

verus! {

/// A 32-byte account identity.
#[derive(Clone, Copy, Debug, PartialEq, Eq, Hash)]
pub struct Pubkey {
    pub bytes: [u8; 32],
}

impl Pubkey {
    /// The identity made of the given bytes.
    pub fn new_from_array(bytes: [u8; 32]) -> (key: Pubkey)
        ensures
            key.bytes == bytes,
    {
        Pubkey { bytes }
    }

    /// The bytes of this identity.
    pub fn to_bytes(&self) -> (bytes: [u8; 32])
        ensures
            bytes == self.bytes,
    {
        self.bytes
    }

    /// Whether two identities are the same, byte for byte.
    pub fn same(&self, other: &Pubkey) -> (r: bool)
        ensures
            r == (*self == *other),
    {
        let mut i: usize = 0;
        while i < 32
            invariant
                i <= 32,
                forall|j: int| 0 <= j < i ==> self.bytes[j] == other.bytes[j],
            decreases 32 - i,
        {
            if self.bytes[i] != other.bytes[i] {
                return false;
            }
            i += 1;
        }
        proof {
            assert(self.bytes@ =~= other.bytes@);
            assert(self.bytes == other.bytes);
        }
        true
    }
}

/// Why a transition was refused. Every refusal leaves all state as it was.
#[derive(Clone, Copy, Debug, PartialEq, Eq, Structural)]
pub enum CustomError {
    /// The campaign has been closed.
    CampaignInactive,
    /// The deadline has passed.
    CampaignExpired,
    /// The deadline has not passed yet.
    CampaignNotExpired,
    /// The proposal is settled, or the campaign has already paid out.
    ProposalAlreadyExecuted,
    /// The yes votes do not strictly outnumber the no votes.
    VoteNotPassed,
    /// The recipient handed in is not the one the proposal was created for.
    InvalidRecipient,
    /// The donation record is bound to another campaign or donor.
    InvalidDonationAccount,
    /// The donor has nothing left to reclaim.
    NoDonationToRefund,
    /// The treasury holds less than the donation to give back.
    InsufficientTreasury,
    /// A counter would have wrapped.
    ArithmeticOverflow,
}

/// What a refusal reads like.
pub open spec fn error_text(e: CustomError) -> Seq<char> {
    match e {
        CustomError::CampaignInactive => "Campaign is not active"@,
        CustomError::CampaignExpired => "Campaign deadline has passed"@,
        CustomError::CampaignNotExpired => "Campaign deadline has not passed yet"@,
        CustomError::ProposalAlreadyExecuted => "Proposal already executed"@,
        CustomError::VoteNotPassed => "Vote has not passed"@,
        CustomError::InvalidRecipient => "Invalid recipient wallet"@,
        CustomError::InvalidDonationAccount => "Donation account belongs to another campaign or donor"@,
        CustomError::NoDonationToRefund => "No donation to refund"@,
        CustomError::InsufficientTreasury => "Treasury holds less than the donation"@,
        CustomError::ArithmeticOverflow => "Arithmetic overflow"@,
    }
}

impl CustomError {
    /// The message that goes with this refusal.
    pub fn message(&self) -> (text: &'static str)
        ensures
            text@ == error_text(*self),
    {
        match self {
            CustomError::CampaignInactive => "Campaign is not active",
            CustomError::CampaignExpired => "Campaign deadline has passed",
            CustomError::CampaignNotExpired => "Campaign deadline has not passed yet",
            CustomError::ProposalAlreadyExecuted => "Proposal already executed",
            CustomError::VoteNotPassed => "Vote has not passed",
            CustomError::InvalidRecipient => "Invalid recipient wallet",
            CustomError::InvalidDonationAccount => "Donation account belongs to another campaign or donor",
            CustomError::NoDonationToRefund => "No donation to refund",
            CustomError::InsufficientTreasury => "Treasury holds less than the donation",
            CustomError::ArithmeticOverflow => "Arithmetic overflow",
        }
    }
}

/// One fundraising effort.
#[derive(Clone, Copy, Debug, PartialEq, Eq)]
pub struct CampaignAccount {
    pub admin: Pubkey,
    /// Informational only: donations are not capped by it.
    pub target_amount: u64,
    /// Running sum of the open donations.
    pub total_donated: u64,
    pub deadline: i64,
    pub is_active: bool,
    pub has_executed_proposal: bool,
}

/// What one donor has contributed to one campaign, accumulated.
#[derive(Clone, Copy, Debug, PartialEq, Eq)]
pub struct DonationAccount {
    pub campaign: Pubkey,
    pub donor: Pubkey,
    pub amount: u64,
}

/// A payout candidate: recipient and amount are fixed when it is created.
#[derive(Clone, Copy, Debug, PartialEq, Eq)]
pub struct ProposalAccount {
    pub campaign: Pubkey,
    pub proposer: Pubkey,
    pub recipient_wallet: Pubkey,
    pub recipient_identity_hash: [u8; 32],
    pub amount: u64,
    pub yes_votes: u64,
    pub no_votes: u64,
    pub executed: bool,
}

/// Marks that a voter has cast a ballot on a proposal. It carries no data.
#[derive(Clone, Copy, Debug, PartialEq, Eq)]
pub struct VoteAccount {}

/// An instruction to move native currency between two accounts. The engine
/// issues it; the ledger that holds the balances carries it out.
#[derive(Clone, Copy, Debug, PartialEq, Eq)]
pub struct Transfer {
    pub from: Pubkey,
    pub to: Pubkey,
    pub amount: u64,
}

impl ProposalAccount {
    /// The fields that are fixed at creation are the same in both records.
    pub open spec fn same_frozen_fields(self, other: ProposalAccount) -> bool {
        &&& self.campaign == other.campaign
        &&& self.proposer == other.proposer
        &&& self.recipient_wallet == other.recipient_wallet
        &&& self.recipient_identity_hash == other.recipient_identity_hash
        &&& self.amount == other.amount
    }

    /// The proposal passes: strictly more yes than no votes, so a tie fails.
    pub open spec fn passes(self) -> bool {
        self.yes_votes > self.no_votes
    }
}

} // verus!
