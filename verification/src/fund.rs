//! A whole campaign: its record, its treasury, and the donation, proposal and
//! vote records that belong to it, each created at most once per key.
//!
//! The model of a `Fund` is its `FundView`. Every operation is stated as a
//! step on that model, and every step keeps `FundView::wf`, which says that
//! the campaign's running sum equals the sum of the donation records, that at
//! most one proposal was ever paid out, and that each proposal's counters add
//! up to the ballots recorded for it.

use vstd::prelude::*;
use crate::types::{
    CampaignAccount, CustomError, DonationAccount, ProposalAccount, Pubkey, Transfer, VoteAccount,
};
use crate::contexts::{CreateProposal, Donate, ExecuteProposal, InitializeCampaign, Refund, Vote};
use crate::engine::{
    create_proposal, create_proposal_error, donate, donate_effect, donate_error, execute_effect,
    execute_error, execute_proposal, fresh_campaign, fresh_proposal, initialize_campaign, refund,
    refund_effect, refund_error, vote, vote_effect, vote_error,
};
use crate::address::{treasury_address, treasury_bytes};
use crate::tally::{
    lemma_total_bounds, lemma_total_push, lemma_total_remove, lemma_total_update,
    lemma_total_zero, total,
};

verus! {

/// The key of a vote record: the proposal, named by its proposer, and the voter.
#[derive(Clone, Copy, Debug, PartialEq, Eq)]
pub struct VoteKey {
    pub proposer: Pubkey,
    pub voter: Pubkey,
}

/// Why an operation on a `Fund` was refused.
#[derive(Clone, Copy, Debug, PartialEq, Eq)]
pub enum FundError {
    /// A guard of the transition failed.
    Program(CustomError),
    /// The record to create exists already: a second proposal by one
    /// proposer, or a second ballot by one voter on one proposal.
    AccountInUse,
    /// No proposal by that proposer exists.
    AccountNotFound,
}

/// A campaign with all its records.
pub struct Fund {
    pub campaign_key: Pubkey,
    pub treasury: Pubkey,
    pub campaign: CampaignAccount,
    pub treasury_balance: u64,
    pub donations: Vec<DonationAccount>,
    pub proposals: Vec<ProposalAccount>,
    pub votes: Vec<VoteKey>,
}

/// The mathematical model of a `Fund`.
pub struct FundView {
    pub campaign_key: Pubkey,
    pub treasury: Pubkey,
    pub campaign: CampaignAccount,
    pub treasury_balance: u64,
    pub donations: Seq<DonationAccount>,
    pub proposals: Seq<ProposalAccount>,
    pub votes: Seq<VoteKey>,
}

impl View for Fund {
    type V = FundView;

    open spec fn view(&self) -> FundView {
        FundView {
            campaign_key: self.campaign_key,
            treasury: self.treasury,
            campaign: self.campaign,
            treasury_balance: self.treasury_balance,
            donations: self.donations@,
            proposals: self.proposals@,
            votes: self.votes@,
        }
    }
}

/// The amounts of the donation records, in order.
pub open spec fn donation_amounts(s: Seq<DonationAccount>) -> Seq<int> {
    Seq::new(s.len(), |i: int| s[i].amount as int)
}

/// One for each proposal that was paid out, zero for the others.
pub open spec fn executed_marks(s: Seq<ProposalAccount>) -> Seq<int> {
    Seq::new(s.len(), |i: int| if s[i].executed { 1int } else { 0int })
}

/// One for each vote record on the proposal of `proposer`, zero for the others.
pub open spec fn ballot_marks(s: Seq<VoteKey>, proposer: Pubkey) -> Seq<int> {
    Seq::new(s.len(), |i: int| if s[i].proposer == proposer { 1int } else { 0int })
}

/// The sum of all donation records.
pub open spec fn donations_total(s: Seq<DonationAccount>) -> int {
    total(donation_amounts(s))
}

/// How many proposals were paid out.
pub open spec fn executed_count(s: Seq<ProposalAccount>) -> int {
    total(executed_marks(s))
}

/// How many voters have cast a ballot on the proposal of `proposer`.
pub open spec fn ballots_on(s: Seq<VoteKey>, proposer: Pubkey) -> int {
    total(ballot_marks(s, proposer))
}

impl FundView {
    /// The invariant of a campaign's books.
    pub open spec fn wf(self) -> bool {
        &&& forall|i: int| 0 <= i < self.donations.len() ==> self.donations[i].campaign == self.campaign_key
        &&& forall|i: int, j: int|
            0 <= i < j < self.donations.len() ==> self.donations[i].donor != self.donations[j].donor
        &&& self.campaign.total_donated == donations_total(self.donations)
        &&& forall|i: int| 0 <= i < self.proposals.len() ==> self.proposals[i].campaign == self.campaign_key
        &&& forall|i: int, j: int|
            0 <= i < j < self.proposals.len() ==> self.proposals[i].proposer != self.proposals[j].proposer
        &&& executed_count(self.proposals) == (if self.campaign.has_executed_proposal { 1int } else { 0int })
        &&& self.campaign.has_executed_proposal ==> !self.campaign.is_active
        &&& forall|i: int, j: int| 0 <= i < j < self.votes.len() ==> self.votes[i] != self.votes[j]
        &&& forall|i: int|
            0 <= i < self.proposals.len() ==> self.proposals[i].yes_votes + self.proposals[i].no_votes
                == ballots_on(self.votes, #[trigger] self.proposals[i].proposer)
        &&& forall|k: int| 0 <= k < self.votes.len() ==> self.has_proposal(#[trigger] self.votes[k].proposer)
        &&& !self.campaign.has_executed_proposal ==> self.treasury_balance >= self.campaign.total_donated
    }

    /// A proposal by `proposer` exists.
    pub open spec fn has_proposal(self, proposer: Pubkey) -> bool {
        exists|i: int| 0 <= i < self.proposals.len() && self.proposals[i].proposer == proposer
    }

    /// Where the donor's record stands, if the donor has one.
    pub open spec fn donation_index(self, donor: Pubkey) -> Option<int> {
        if exists|i: int| 0 <= i < self.donations.len() && self.donations[i].donor == donor {
            Some(choose|i: int| 0 <= i < self.donations.len() && self.donations[i].donor == donor)
        } else {
            None
        }
    }

    /// The donor's record, if the donor has one.
    pub open spec fn donation_of(self, donor: Pubkey) -> Option<DonationAccount> {
        match self.donation_index(donor) {
            Some(i) => Some(self.donations[i]),
            None => None,
        }
    }

    /// Where the proposer's proposal stands, if there is one.
    pub open spec fn proposal_index(self, proposer: Pubkey) -> Option<int> {
        if exists|i: int| 0 <= i < self.proposals.len() && self.proposals[i].proposer == proposer {
            Some(choose|i: int| 0 <= i < self.proposals.len() && self.proposals[i].proposer == proposer)
        } else {
            None
        }
    }

    /// The proposer's proposal, if there is one.
    pub open spec fn proposal_of(self, proposer: Pubkey) -> Option<ProposalAccount> {
        match self.proposal_index(proposer) {
            Some(i) => Some(self.proposals[i]),
            None => None,
        }
    }

    /// The voter has cast a ballot on the proposer's proposal.
    pub open spec fn has_voted(self, proposer: Pubkey, voter: Pubkey) -> bool {
        self.votes.contains(VoteKey { proposer, voter })
    }

    /// The books of a campaign that was just created.
    pub open spec fn fresh(
        campaign_key: Pubkey,
        treasury: Pubkey,
        admin: Pubkey,
        target_amount: u64,
        deadline: i64,
    ) -> FundView {
        FundView {
            campaign_key,
            treasury,
            campaign: fresh_campaign(admin, target_amount, deadline),
            treasury_balance: 0,
            donations: Seq::empty(),
            proposals: Seq::empty(),
            votes: Seq::empty(),
        }
    }

    /// The accounts that a donation by `donor` at `now` works on.
    pub open spec fn donate_ctx(self, donor: Pubkey, now: i64) -> Donate {
        Donate {
            campaign_key: self.campaign_key,
            campaign: self.campaign,
            treasury: self.treasury,
            donation: self.donation_of(donor),
            donor,
            now,
        }
    }

    /// Why a donation is refused, if it is: by a guard of the transition, or
    /// because the treasury's balance would wrap.
    pub open spec fn donate_refusal(self, donor: Pubkey, amount: u64, now: i64) -> Option<FundError> {
        match donate_error(self.donate_ctx(donor, now), amount) {
            Some(e) => Some(FundError::Program(e)),
            None => if self.treasury_balance + amount > u64::MAX {
                Some(FundError::Program(CustomError::ArithmeticOverflow))
            } else {
                None
            },
        }
    }

    /// The books after a donation that was accepted.
    pub open spec fn after_donate(self, donor: Pubkey, amount: u64, now: i64) -> FundView {
        let after = donate_effect(self.donate_ctx(donor, now), amount);
        FundView {
            campaign: after.campaign,
            treasury_balance: (self.treasury_balance + amount) as u64,
            donations: match self.donation_index(donor) {
                Some(i) => self.donations.update(i, after.donation->Some_0),
                None => self.donations.push(after.donation->Some_0),
            },
            ..self
        }
    }

    /// Why the creation of a proposal is refused, if it is: the proposer has
    /// one already, or a guard of the transition fails.
    pub open spec fn create_proposal_refusal(self, proposer: Pubkey, now: i64) -> Option<FundError> {
        if self.proposal_index(proposer) is Some {
            Some(FundError::AccountInUse)
        } else {
            match create_proposal_error(self.campaign, now) {
                Some(e) => Some(FundError::Program(e)),
                None => None,
            }
        }
    }

    /// The books after a proposal was created.
    pub open spec fn after_create_proposal(
        self,
        proposer: Pubkey,
        recipient_wallet: Pubkey,
        recipient_identity_hash: [u8; 32],
        amount: u64,
    ) -> FundView {
        FundView {
            proposals: self.proposals.push(
                fresh_proposal(
                    self.campaign_key,
                    proposer,
                    recipient_wallet,
                    recipient_identity_hash,
                    amount,
                ),
            ),
            ..self
        }
    }

    /// Why a ballot is refused, if it is: no such proposal, the voter has
    /// voted on it before, or a guard of the transition fails.
    pub open spec fn vote_refusal(self, proposer: Pubkey, voter: Pubkey, approve: bool) -> Option<FundError> {
        match self.proposal_of(proposer) {
            None => Some(FundError::AccountNotFound),
            Some(p) => if self.has_voted(proposer, voter) {
                Some(FundError::AccountInUse)
            } else {
                match vote_error(Vote { proposal: p, vote_record: VoteAccount {  }, voter }, approve) {
                    Some(e) => Some(FundError::Program(e)),
                    None => None,
                }
            },
        }
    }

    /// The books after a ballot that was accepted.
    pub open spec fn after_vote(self, proposer: Pubkey, voter: Pubkey, approve: bool) -> FundView {
        let i = self.proposal_index(proposer)->Some_0;
        FundView {
            proposals: self.proposals.update(i, vote_effect(self.proposals[i], approve)),
            votes: self.votes.push(VoteKey { proposer, voter }),
            ..self
        }
    }

    /// The accounts that the execution of `proposal` works on.
    pub open spec fn execute_ctx(self, proposal: ProposalAccount, recipient: Pubkey, now: i64) -> ExecuteProposal {
        ExecuteProposal {
            proposal,
            campaign: self.campaign,
            treasury: self.treasury,
            recipient,
            now,
        }
    }

    /// Why a payout is refused, if it is: no such proposal, a guard of the
    /// transition fails, or the treasury holds less than the proposal asks.
    pub open spec fn execute_refusal(self, proposer: Pubkey, recipient: Pubkey, now: i64) -> Option<FundError> {
        match self.proposal_of(proposer) {
            None => Some(FundError::AccountNotFound),
            Some(p) => match execute_error(self.execute_ctx(p, recipient, now)) {
                Some(e) => Some(FundError::Program(e)),
                None => if self.treasury_balance < p.amount {
                    Some(FundError::Program(CustomError::InsufficientTreasury))
                } else {
                    None
                },
            },
        }
    }

    /// The books after the payout.
    pub open spec fn after_execute(self, proposer: Pubkey, recipient: Pubkey, now: i64) -> FundView {
        let i = self.proposal_index(proposer)->Some_0;
        let after = execute_effect(self.execute_ctx(self.proposals[i], recipient, now));
        FundView {
            campaign: after.campaign,
            treasury_balance: (self.treasury_balance - self.proposals[i].amount) as u64,
            proposals: self.proposals.update(i, after.proposal),
            ..self
        }
    }

    /// The accounts that a refund to `donor` at `now` works on. A donor
    /// without a record is treated as one who has nothing left to reclaim.
    pub open spec fn refund_ctx(self, donor: Pubkey, now: i64) -> Refund {
        Refund {
            campaign_key: self.campaign_key,
            campaign: self.campaign,
            treasury: self.treasury,
            treasury_balance: self.treasury_balance,
            donation: match self.donation_of(donor) {
                Some(d) => d,
                None => DonationAccount { campaign: self.campaign_key, donor, amount: 0 },
            },
            donor,
            now,
        }
    }

    /// Why a refund is refused, if it is.
    pub open spec fn refund_refusal(self, donor: Pubkey, now: i64) -> Option<FundError> {
        match refund_error(self.refund_ctx(donor, now)) {
            Some(e) => Some(FundError::Program(e)),
            None => None,
        }
    }

    /// The books after a refund: the donor's record is gone.
    pub open spec fn after_refund(self, donor: Pubkey, now: i64) -> FundView {
        let i = self.donation_index(donor)->Some_0;
        let after = refund_effect(self.refund_ctx(donor, now));
        FundView {
            campaign: after.campaign,
            treasury_balance: after.treasury_balance,
            donations: self.donations.remove(i),
            ..self
        }
    }

    /// Every proposal that `self` holds stands in `later` at the same place,
    /// with the recipient, hash and amount it was created with.
    pub open spec fn proposals_frozen_in(self, later: FundView) -> bool {
        &&& self.proposals.len() <= later.proposals.len()
        &&& forall|i: int|
            0 <= i < self.proposals.len() ==> (#[trigger] later.proposals[i]).same_frozen_fields(
                self.proposals[i],
            )
    }
}

/// A campaign that was just created keeps consistent books.
pub proof fn lemma_fresh_wf(
    campaign_key: Pubkey,
    treasury: Pubkey,
    admin: Pubkey,
    target_amount: u64,
    deadline: i64,
)
    ensures
        FundView::fresh(campaign_key, treasury, admin, target_amount, deadline).wf(),
{
    let v = FundView::fresh(campaign_key, treasury, admin, target_amount, deadline);
    assert(donation_amounts(v.donations) =~= Seq::<int>::empty());
    assert(executed_marks(v.proposals) =~= Seq::<int>::empty());
}

/// In consistent books the donor's record is the only one with that donor.
pub proof fn lemma_donation_index(v: FundView, i: int, donor: Pubkey)
    requires
        v.wf(),
        0 <= i < v.donations.len(),
        v.donations[i].donor == donor,
    ensures
        v.donation_index(donor) == Some(i),
{
    let j = v.donation_index(donor)->Some_0;
    assert(0 <= j < v.donations.len() && v.donations[j].donor == donor);
    if j < i {
        assert(v.donations[j].donor != v.donations[i].donor);
    } else if i < j {
        assert(v.donations[i].donor != v.donations[j].donor);
    }
}

/// In consistent books the proposer's proposal is the only one by that proposer.
pub proof fn lemma_proposal_index(v: FundView, i: int, proposer: Pubkey)
    requires
        v.wf(),
        0 <= i < v.proposals.len(),
        v.proposals[i].proposer == proposer,
    ensures
        v.proposal_index(proposer) == Some(i),
{
    let j = v.proposal_index(proposer)->Some_0;
    assert(0 <= j < v.proposals.len() && v.proposals[j].proposer == proposer);
    if j < i {
        assert(v.proposals[j].proposer != v.proposals[i].proposer);
    } else if i < j {
        assert(v.proposals[i].proposer != v.proposals[j].proposer);
    }
}

/// Conservation under donations: an accepted donation keeps the books
/// consistent, so the campaign's sum still equals the sum of its donation
/// records.
pub proof fn lemma_donate_keeps_wf(v: FundView, donor: Pubkey, amount: u64, now: i64)
    requires
        v.wf(),
        v.donate_refusal(donor, amount, now) is None,
    ensures
        v.after_donate(donor, amount, now).wf(),
        v.proposals_frozen_in(v.after_donate(donor, amount, now)),
{
    let w = v.after_donate(donor, amount, now);
    let rec = donate_effect(v.donate_ctx(donor, now), amount).donation->Some_0;
    match v.donation_index(donor) {
        Some(i) => {
            assert(v.donations[i].donor == donor);
            assert(donation_amounts(w.donations) =~= donation_amounts(v.donations).update(
                i,
                rec.amount as int,
            ));
            lemma_total_update(donation_amounts(v.donations), i, rec.amount as int);
            assert forall|a: int, b: int| 0 <= a < b < w.donations.len() implies w.donations[a].donor
                != w.donations[b].donor by {
                assert(v.donations[a].donor != v.donations[b].donor);
            }
        },
        None => {
            assert(donation_amounts(w.donations) =~= donation_amounts(v.donations).push(
                rec.amount as int,
            ));
            lemma_total_push(donation_amounts(v.donations), rec.amount as int);
            assert forall|a: int, b: int| 0 <= a < b < w.donations.len() implies w.donations[a].donor
                != w.donations[b].donor by {
                if b < v.donations.len() {
                    assert(v.donations[a].donor != v.donations[b].donor);
                } else {
                    assert(v.donations[a].donor != donor);
                }
            }
        },
    }
}

/// Creating a proposal keeps the books consistent.
pub proof fn lemma_create_proposal_keeps_wf(
    v: FundView,
    proposer: Pubkey,
    recipient_wallet: Pubkey,
    recipient_identity_hash: [u8; 32],
    amount: u64,
    now: i64,
)
    requires
        v.wf(),
        v.create_proposal_refusal(proposer, now) is None,
    ensures
        v.after_create_proposal(proposer, recipient_wallet, recipient_identity_hash, amount).wf(),
        v.proposals_frozen_in(
            v.after_create_proposal(proposer, recipient_wallet, recipient_identity_hash, amount),
        ),
{
    let w = v.after_create_proposal(proposer, recipient_wallet, recipient_identity_hash, amount);
    let n = v.proposals.len() as int;
    assert(executed_marks(w.proposals) =~= executed_marks(v.proposals).push(0));
    lemma_total_push(executed_marks(v.proposals), 0);
    assert forall|k: int| 0 <= k < v.votes.len() implies v.votes[k].proposer != proposer by {
        assert(v.has_proposal(v.votes[k].proposer));
    }
    lemma_total_zero(ballot_marks(v.votes, proposer));
    assert forall|a: int, b: int| 0 <= a < b < w.proposals.len() implies w.proposals[a].proposer
        != w.proposals[b].proposer by {
        if b < n {
            assert(v.proposals[a].proposer != v.proposals[b].proposer);
        } else {
            assert(v.proposals[a].proposer != proposer);
        }
    }
    assert forall|i: int| 0 <= i < w.proposals.len() implies w.proposals[i].yes_votes
        + w.proposals[i].no_votes == ballots_on(w.votes, #[trigger] w.proposals[i].proposer) by {
        if i < n {
            assert(w.proposals[i] == v.proposals[i]);
        }
    }
    assert forall|k: int| 0 <= k < w.votes.len() implies w.has_proposal(
        #[trigger] w.votes[k].proposer,
    ) by {
        assert(v.has_proposal(v.votes[k].proposer));
        let i = choose|i: int| 0 <= i < v.proposals.len() && v.proposals[i].proposer == v.votes[k].proposer;
        assert(w.proposals[i].proposer == w.votes[k].proposer);
    }
}

/// Vote integrity: an accepted ballot keeps the books consistent, so no
/// voter is recorded twice on one proposal and each proposal's counters add
/// up to the ballots recorded for it. Recipient and amount do not move.
pub proof fn lemma_vote_keeps_wf(v: FundView, proposer: Pubkey, voter: Pubkey, approve: bool)
    requires
        v.wf(),
        v.vote_refusal(proposer, voter, approve) is None,
    ensures
        v.after_vote(proposer, voter, approve).wf(),
        v.proposals_frozen_in(v.after_vote(proposer, voter, approve)),
        ballots_on(v.after_vote(proposer, voter, approve).votes, proposer) == ballots_on(
            v.votes,
            proposer,
        ) + 1,
{
    let w = v.after_vote(proposer, voter, approve);
    let i = v.proposal_index(proposer)->Some_0;
    let key = VoteKey { proposer, voter };
    assert(0 <= i < v.proposals.len() && v.proposals[i].proposer == proposer);
    assert(executed_marks(w.proposals) =~= executed_marks(v.proposals));
    assert forall|a: int, b: int| 0 <= a < b < w.proposals.len() implies w.proposals[a].proposer
        != w.proposals[b].proposer by {
        assert(v.proposals[a].proposer != v.proposals[b].proposer);
    }
    assert forall|a: int, b: int| 0 <= a < b < w.votes.len() implies w.votes[a] != w.votes[b] by {
        if b < v.votes.len() {
            assert(v.votes[a] != v.votes[b]);
        } else {
            assert(!v.votes.contains(key));
            assert(v.votes[a] != key);
        }
    }
    assert forall|j: int| 0 <= j < w.proposals.len() implies w.proposals[j].yes_votes
        + w.proposals[j].no_votes == ballots_on(w.votes, #[trigger] w.proposals[j].proposer) by {
        let pr = w.proposals[j].proposer;
        assert(pr == v.proposals[j].proposer);
        let mark = if pr == proposer { 1int } else { 0int };
        assert(ballot_marks(w.votes, pr) =~= ballot_marks(v.votes, pr).push(mark));
        lemma_total_push(ballot_marks(v.votes, pr), mark);
        if j < i {
            assert(v.proposals[j].proposer != v.proposals[i].proposer);
        } else if i < j {
            assert(v.proposals[i].proposer != v.proposals[j].proposer);
        }
    }
    assert forall|k: int| 0 <= k < w.votes.len() implies w.has_proposal(
        #[trigger] w.votes[k].proposer,
    ) by {
        if k < v.votes.len() {
            assert(v.has_proposal(v.votes[k].proposer));
            let a = choose|a: int| 0 <= a < v.proposals.len() && v.proposals[a].proposer == v.votes[k].proposer;
            assert(w.proposals[a].proposer == w.votes[k].proposer);
        } else {
            assert(w.proposals[i].proposer == proposer);
        }
    }
    assert(ballot_marks(w.votes, proposer) =~= ballot_marks(v.votes, proposer).push(1));
    lemma_total_push(ballot_marks(v.votes, proposer), 1);
}

/// A payout keeps the books consistent: exactly one proposal is then marked
/// as paid out, and the campaign is closed.
pub proof fn lemma_execute_keeps_wf(v: FundView, proposer: Pubkey, recipient: Pubkey, now: i64)
    requires
        v.wf(),
        v.execute_refusal(proposer, recipient, now) is None,
    ensures
        v.after_execute(proposer, recipient, now).wf(),
        v.proposals_frozen_in(v.after_execute(proposer, recipient, now)),
        executed_count(v.after_execute(proposer, recipient, now).proposals) == 1,
{
    let w = v.after_execute(proposer, recipient, now);
    let i = v.proposal_index(proposer)->Some_0;
    assert(0 <= i < v.proposals.len() && v.proposals[i].proposer == proposer);
    assert(executed_marks(w.proposals) =~= executed_marks(v.proposals).update(i, 1));
    lemma_total_update(executed_marks(v.proposals), i, 1);
    assert forall|a: int, b: int| 0 <= a < b < w.proposals.len() implies w.proposals[a].proposer
        != w.proposals[b].proposer by {
        assert(v.proposals[a].proposer != v.proposals[b].proposer);
    }
    assert forall|j: int| 0 <= j < w.proposals.len() implies w.proposals[j].yes_votes
        + w.proposals[j].no_votes == ballots_on(w.votes, #[trigger] w.proposals[j].proposer) by {
        assert(w.proposals[j].proposer == v.proposals[j].proposer);
    }
    assert forall|k: int| 0 <= k < w.votes.len() implies w.has_proposal(
        #[trigger] w.votes[k].proposer,
    ) by {
        assert(v.has_proposal(v.votes[k].proposer));
        let a = choose|a: int| 0 <= a < v.proposals.len() && v.proposals[a].proposer == v.votes[k].proposer;
        assert(w.proposals[a].proposer == w.votes[k].proposer);
    }
}

/// Conservation under refunds: a refund keeps the books consistent, so the
/// campaign's sum still equals the sum of the donation records that are left.
pub proof fn lemma_refund_keeps_wf(v: FundView, donor: Pubkey, now: i64)
    requires
        v.wf(),
        v.refund_refusal(donor, now) is None,
    ensures
        v.donation_of(donor) is Some,
        v.after_refund(donor, now).wf(),
        v.proposals_frozen_in(v.after_refund(donor, now)),
        v.after_refund(donor, now).donation_of(donor) is None,
{
    let w = v.after_refund(donor, now);
    let i = v.donation_index(donor)->Some_0;
    assert(0 <= i < v.donations.len() && v.donations[i].donor == donor);
    assert(donation_amounts(w.donations) =~= donation_amounts(v.donations).remove(i));
    lemma_total_remove(donation_amounts(v.donations), i);
    assert forall|a: int, b: int| 0 <= a < b < w.donations.len() implies w.donations[a].donor
        != w.donations[b].donor by {
        let a0 = if a < i { a } else { a + 1 };
        let b0 = if b < i { b } else { b + 1 };
        assert(v.donations[a0].donor != v.donations[b0].donor);
    }
    assert forall|a: int| 0 <= a < w.donations.len() implies w.donations[a].donor != donor by {
        let a0 = if a < i { a } else { a + 1 };
        if a0 < i {
            assert(v.donations[a0].donor != v.donations[i].donor);
        } else {
            assert(v.donations[i].donor != v.donations[a0].donor);
        }
    }
    assert forall|a: int| 0 <= a < w.donations.len() implies w.donations[a].campaign
        == w.campaign_key by {
        let a0 = if a < i { a } else { a + 1 };
        assert(v.donations[a0].campaign == v.campaign_key);
    }
    assert(v.refund_ctx(donor, now).donation == v.donations[i]);
    assert(w.campaign.total_donated == donations_total(w.donations));
    assert(w.proposals == v.proposals && w.votes == v.votes);
    assert(w.treasury_balance >= w.campaign.total_donated);
    assert(w.wf());
}

/// In consistent books a refund is owed to every donor with an open
/// donation once the deadline has passed, unless the campaign has paid out:
/// the treasury and the campaign's sum always cover it.
pub proof fn lemma_refund_is_covered(v: FundView, donor: Pubkey, now: i64)
    requires
        v.wf(),
        now > v.campaign.deadline,
        !v.campaign.has_executed_proposal,
        v.donation_of(donor) is Some,
        v.donation_of(donor)->Some_0.amount > 0,
    ensures
        v.refund_refusal(donor, now) is None,
{
    let i = v.donation_index(donor)->Some_0;
    assert(0 <= i < v.donations.len() && v.donations[i].donor == donor);
    lemma_total_bounds(donation_amounts(v.donations), i);
}

impl Fund {
    /// The books of a new campaign: open, nothing donated, an empty
    /// treasury, no records.
    pub fn new(
        campaign_key: Pubkey,
        treasury: Pubkey,
        admin: Pubkey,
        target_amount: u64,
        deadline: i64,
    ) -> (fund: Fund)
        ensures
            fund@ == FundView::fresh(campaign_key, treasury, admin, target_amount, deadline),
            fund@.wf(),
    {
        let blank = CampaignAccount {
            admin,
            target_amount: 0,
            total_donated: 0,
            deadline: 0,
            is_active: false,
            has_executed_proposal: false,
        };
        let mut ctx = InitializeCampaign { campaign: blank, admin };
        let _ = initialize_campaign(&mut ctx, target_amount, deadline);
        let fund = Fund {
            campaign_key,
            treasury,
            campaign: ctx.campaign,
            treasury_balance: 0,
            donations: Vec::new(),
            proposals: Vec::new(),
            votes: Vec::new(),
        };
        proof {
            lemma_fresh_wf(campaign_key, treasury, admin, target_amount, deadline);
            assert(fund@.donations =~= Seq::empty());
            assert(fund@.proposals =~= Seq::empty());
            assert(fund@.votes =~= Seq::empty());
        }
        fund
    }

    /// The books of a new campaign whose treasury is the sub-account derived
    /// for it under the given program; `None` where no address can be derived.
    pub fn open(
        program_id: Pubkey,
        campaign_key: Pubkey,
        admin: Pubkey,
        target_amount: u64,
        deadline: i64,
    ) -> (r: Option<Fund>)
        ensures
            match r {
                Some(fund) => {
                    &&& treasury_bytes(program_id, campaign_key) == Some(fund.treasury.bytes@)
                    &&& fund@ == FundView::fresh(
                        campaign_key,
                        fund.treasury,
                        admin,
                        target_amount,
                        deadline,
                    )
                    &&& fund@.wf()
                },
                None => treasury_bytes(program_id, campaign_key) is None,
            },
    {
        match treasury_address(&program_id, &campaign_key) {
            Some(treasury) => Some(Fund::new(campaign_key, treasury, admin, target_amount, deadline)),
            None => None,
        }
    }

    fn find_donation(&self, donor: &Pubkey) -> (r: Option<usize>)
        ensures
            match r {
                Some(i) => i < self.donations.len() && self.donations[i as int].donor == *donor,
                None => forall|j: int| 0 <= j < self.donations.len() ==> self.donations[j].donor != *donor,
            },
    {
        let mut i: usize = 0;
        while i < self.donations.len()
            invariant
                i <= self.donations.len(),
                forall|j: int| 0 <= j < i ==> self.donations[j].donor != *donor,
            decreases self.donations.len() - i,
        {
            if self.donations[i].donor.same(donor) {
                return Some(i);
            }
            i += 1;
        }
        None
    }

    fn find_proposal(&self, proposer: &Pubkey) -> (r: Option<usize>)
        ensures
            match r {
                Some(i) => i < self.proposals.len() && self.proposals[i as int].proposer == *proposer,
                None => forall|j: int|
                    0 <= j < self.proposals.len() ==> self.proposals[j].proposer != *proposer,
            },
    {
        let mut i: usize = 0;
        while i < self.proposals.len()
            invariant
                i <= self.proposals.len(),
                forall|j: int| 0 <= j < i ==> self.proposals[j].proposer != *proposer,
            decreases self.proposals.len() - i,
        {
            if self.proposals[i].proposer.same(proposer) {
                return Some(i);
            }
            i += 1;
        }
        None
    }

    /// The donor's record, if the donor has one.
    pub fn donation_of(&self, donor: Pubkey) -> (r: Option<DonationAccount>)
        requires
            self@.wf(),
        ensures
            r == self@.donation_of(donor),
    {
        match self.find_donation(&donor) {
            Some(i) => {
                proof {
                    lemma_donation_index(self@, i as int, donor);
                }
                Some(self.donations[i])
            },
            None => None,
        }
    }

    /// The proposer's proposal, if there is one.
    pub fn proposal_of(&self, proposer: Pubkey) -> (r: Option<ProposalAccount>)
        requires
            self@.wf(),
        ensures
            r == self@.proposal_of(proposer),
    {
        match self.find_proposal(&proposer) {
            Some(i) => {
                proof {
                    lemma_proposal_index(self@, i as int, proposer);
                }
                Some(self.proposals[i])
            },
            None => None,
        }
    }

    /// Whether the voter has cast a ballot on the proposer's proposal.
    pub fn has_voted(&self, proposer: Pubkey, voter: Pubkey) -> (r: bool)
        ensures
            r == self@.has_voted(proposer, voter),
    {
        let mut i: usize = 0;
        while i < self.votes.len()
            invariant
                i <= self.votes.len(),
                forall|j: int| 0 <= j < i ==> self.votes[j] != (VoteKey { proposer, voter }),
            decreases self.votes.len() - i,
        {
            if self.votes[i].proposer.same(&proposer) && self.votes[i].voter.same(&voter) {
                assert(self.votes@[i as int] == (VoteKey { proposer, voter }));
                return true;
            }
            i += 1;
        }
        false
    }

    /// Takes a donation: the donor's record is created on the first one and
    /// grows on later ones, and the campaign's sum and the treasury grow with
    /// it. A refusal leaves the books as they were.
    pub fn donate(&mut self, donor: Pubkey, amount: u64, now: i64) -> (r: Result<Transfer, FundError>)
        requires
            old(self)@.wf(),
        ensures
            final(self)@.wf(),
            old(self)@.proposals_frozen_in(final(self)@),
            match r {
                Ok(t) => {
                    &&& old(self)@.donate_refusal(donor, amount, now) is None
                    &&& final(self)@ == old(self)@.after_donate(donor, amount, now)
                    &&& t == (Transfer { from: donor, to: old(self).treasury, amount })
                },
                Err(e) => old(self)@.donate_refusal(donor, amount, now) == Some(e) && final(self)@
                    == old(self)@,
            },
    {
        let found = self.find_donation(&donor);
        let existing: Option<DonationAccount> = match found {
            Some(i) => {
                proof {
                    lemma_donation_index(self@, i as int, donor);
                }
                Some(self.donations[i])
            },
            None => None,
        };
        let mut ctx = Donate {
            campaign_key: self.campaign_key,
            campaign: self.campaign,
            treasury: self.treasury,
            donation: existing,
            donor,
            now,
        };
        assert(ctx == self@.donate_ctx(donor, now));
        let transfer = match donate(&mut ctx, amount) {
            Ok(t) => t,
            Err(e) => {
                return Err(FundError::Program(e));
            },
        };
        let balance: u64 = match self.treasury_balance.checked_add(amount) {
            Some(b) => b,
            None => {
                return Err(FundError::Program(CustomError::ArithmeticOverflow));
            },
        };
        let record = match ctx.donation {
            Some(d) => d,
            None => DonationAccount { campaign: self.campaign_key, donor, amount },
        };
        proof {
            lemma_donate_keeps_wf(self@, donor, amount, now);
        }
        self.campaign = ctx.campaign;
        self.treasury_balance = balance;
        match found {
            Some(i) => {
                self.donations.set(i, record);
            },
            None => {
                self.donations.push(record);
            },
        }
        assert(self@.donations =~= old(self)@.after_donate(donor, amount, now).donations);
        Ok(transfer)
    }

    /// Creates the proposer's one proposal for this campaign, with recipient,
    /// hash and amount fixed from now on.
    pub fn create_proposal(
        &mut self,
        proposer: Pubkey,
        recipient_wallet: Pubkey,
        recipient_identity_hash: [u8; 32],
        amount: u64,
        now: i64,
    ) -> (r: Result<(), FundError>)
        requires
            old(self)@.wf(),
        ensures
            final(self)@.wf(),
            old(self)@.proposals_frozen_in(final(self)@),
            match r {
                Ok(_) => {
                    &&& old(self)@.create_proposal_refusal(proposer, now) is None
                    &&& final(self)@ == old(self)@.after_create_proposal(
                        proposer,
                        recipient_wallet,
                        recipient_identity_hash,
                        amount,
                    )
                },
                Err(e) => old(self)@.create_proposal_refusal(proposer, now) == Some(e) && final(self)@
                    == old(self)@,
            },
    {
        if self.find_proposal(&proposer).is_some() {
            return Err(FundError::AccountInUse);
        }
        let blank = ProposalAccount {
            campaign: self.campaign_key,
            proposer,
            recipient_wallet: proposer,
            recipient_identity_hash,
            amount: 0,
            yes_votes: 0,
            no_votes: 0,
            executed: false,
        };
        let mut ctx = CreateProposal {
            proposal: blank,
            campaign_key: self.campaign_key,
            campaign: self.campaign,
            proposer,
            now,
        };
        match create_proposal(&mut ctx, recipient_wallet, recipient_identity_hash, amount) {
            Ok(_) => {},
            Err(e) => {
                return Err(FundError::Program(e));
            },
        }
        proof {
            lemma_create_proposal_keeps_wf(
                self@,
                proposer,
                recipient_wallet,
                recipient_identity_hash,
                amount,
                now,
            );
        }
        self.proposals.push(ctx.proposal);
        Ok(())
    }

    /// Records the voter's one ballot on the proposer's proposal and counts it.
    pub fn vote(&mut self, proposer: Pubkey, voter: Pubkey, approve: bool) -> (r: Result<(), FundError>)
        requires
            old(self)@.wf(),
        ensures
            final(self)@.wf(),
            old(self)@.proposals_frozen_in(final(self)@),
            match r {
                Ok(_) => {
                    &&& old(self)@.vote_refusal(proposer, voter, approve) is None
                    &&& final(self)@ == old(self)@.after_vote(proposer, voter, approve)
                },
                Err(e) => old(self)@.vote_refusal(proposer, voter, approve) == Some(e) && final(self)@
                    == old(self)@,
            },
    {
        let i: usize = match self.find_proposal(&proposer) {
            Some(i) => i,
            None => {
                return Err(FundError::AccountNotFound);
            },
        };
        proof {
            lemma_proposal_index(self@, i as int, proposer);
        }
        if self.has_voted(proposer, voter) {
            return Err(FundError::AccountInUse);
        }
        let mut ctx = Vote { proposal: self.proposals[i], vote_record: VoteAccount {  }, voter };
        match vote(&mut ctx, approve) {
            Ok(_) => {},
            Err(e) => {
                return Err(FundError::Program(e));
            },
        }
        proof {
            lemma_vote_keeps_wf(self@, proposer, voter, approve);
        }
        self.proposals.set(i, ctx.proposal);
        self.votes.push(VoteKey { proposer, voter });
        Ok(())
    }

    /// Pays the proposer's proposal out of the treasury, once per campaign.
    pub fn execute_proposal(&mut self, proposer: Pubkey, recipient: Pubkey, now: i64) -> (r: Result<
        Transfer,
        FundError,
    >)
        requires
            old(self)@.wf(),
        ensures
            final(self)@.wf(),
            old(self)@.proposals_frozen_in(final(self)@),
            match r {
                Ok(t) => {
                    &&& old(self)@.execute_refusal(proposer, recipient, now) is None
                    &&& final(self)@ == old(self)@.after_execute(proposer, recipient, now)
                    &&& old(self)@.proposal_of(proposer) is Some
                    &&& t == (Transfer {
                        from: old(self).treasury,
                        to: old(self)@.proposal_of(proposer)->Some_0.recipient_wallet,
                        amount: old(self)@.proposal_of(proposer)->Some_0.amount,
                    })
                },
                Err(e) => old(self)@.execute_refusal(proposer, recipient, now) == Some(e) && final(self)@
                    == old(self)@,
            },
    {
        let i: usize = match self.find_proposal(&proposer) {
            Some(i) => i,
            None => {
                return Err(FundError::AccountNotFound);
            },
        };
        proof {
            lemma_proposal_index(self@, i as int, proposer);
        }
        let mut ctx = ExecuteProposal {
            proposal: self.proposals[i],
            campaign: self.campaign,
            treasury: self.treasury,
            recipient,
            now,
        };
        let transfer = match execute_proposal(&mut ctx) {
            Ok(t) => t,
            Err(e) => {
                return Err(FundError::Program(e));
            },
        };
        if self.treasury_balance < transfer.amount {
            return Err(FundError::Program(CustomError::InsufficientTreasury));
        }
        proof {
            lemma_execute_keeps_wf(self@, proposer, recipient, now);
        }
        self.campaign = ctx.campaign;
        self.treasury_balance = self.treasury_balance - transfer.amount;
        self.proposals.set(i, ctx.proposal);
        Ok(transfer)
    }

    /// Gives the donor everything back after the deadline of a campaign that
    /// has not paid out, and removes the donor's record.
    pub fn refund(&mut self, donor: Pubkey, now: i64) -> (r: Result<Transfer, FundError>)
        requires
            old(self)@.wf(),
        ensures
            final(self)@.wf(),
            old(self)@.proposals_frozen_in(final(self)@),
            match r {
                Ok(t) => {
                    &&& old(self)@.refund_refusal(donor, now) is None
                    &&& final(self)@ == old(self)@.after_refund(donor, now)
                    &&& old(self)@.donation_of(donor) is Some
                    &&& t == (Transfer {
                        from: old(self).treasury,
                        to: donor,
                        amount: old(self)@.donation_of(donor)->Some_0.amount,
                    })
                },
                Err(e) => old(self)@.refund_refusal(donor, now) == Some(e) && final(self)@ == old(self)@,
            },
    {
        let found = self.find_donation(&donor);
        let donation: DonationAccount = match found {
            Some(i) => {
                proof {
                    lemma_donation_index(self@, i as int, donor);
                }
                self.donations[i]
            },
            None => DonationAccount { campaign: self.campaign_key, donor, amount: 0 },
        };
        let mut ctx = Refund {
            campaign_key: self.campaign_key,
            campaign: self.campaign,
            treasury: self.treasury,
            treasury_balance: self.treasury_balance,
            donation,
            donor,
            now,
        };
        assert(ctx == self@.refund_ctx(donor, now));
        let transfer = match refund(&mut ctx) {
            Ok(t) => t,
            Err(e) => {
                return Err(FundError::Program(e));
            },
        };
        proof {
            lemma_refund_keeps_wf(self@, donor, now);
        }
        match found {
            Some(i) => {
                self.campaign = ctx.campaign;
                self.treasury_balance = ctx.treasury_balance;
                let _ = self.donations.remove(i);
                Ok(transfer)
            },
            None => Err(FundError::Program(CustomError::NoDonationToRefund)),
        }
    }
}

} // verus!
