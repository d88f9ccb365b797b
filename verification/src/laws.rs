//! What holds of a campaign over its whole history, proved from the
//! transitions' guards and effects.

use vstd::prelude::*;
use crate::types::{CustomError, Pubkey};
use crate::contexts::{ExecuteProposal, Refund};
use crate::engine::{execute_effect, execute_error, refund_error};
use crate::fund::{
    ballot_marks, ballots_on, donations_total, executed_count, lemma_proposal_index,
    lemma_vote_keeps_wf, FundError, FundView, VoteKey,
};

verus! {

/// Conservation: in consistent books the campaign's running sum is the sum of
/// its donation records. A new campaign's books are consistent and every
/// accepted operation keeps them so, hence this holds after any sequence of
/// donations and refunds.
pub proof fn lemma_conservation(v: FundView)
    requires
        v.wf(),
    ensures
        v.campaign.total_donated == donations_total(v.donations),
{
}

/// At most one payout: once a campaign has paid out, executing any proposal
/// on it, the same or another, is refused as already executed.
pub proof fn lemma_second_execution_refused(first: ExecuteProposal, second: ExecuteProposal)
    requires
        execute_error(first) is None,
        second.campaign == execute_effect(first).campaign,
    ensures
        execute_error(second) == Some(CustomError::ProposalAlreadyExecuted),
{
}

/// At most one payout, on a campaign's books: after a payout every proposal
/// of the campaign is refused as already executed, and exactly one proposal
/// is marked as paid out.
pub proof fn lemma_at_most_one_payout(v: FundView, proposer: Pubkey, recipient: Pubkey, now: i64)
    requires
        v.wf(),
        v.campaign.has_executed_proposal,
        v.has_proposal(proposer),
    ensures
        v.execute_refusal(proposer, recipient, now) == Some(
            FundError::Program(CustomError::ProposalAlreadyExecuted),
        ),
        executed_count(v.proposals) == 1,
{
}

/// No operation takes a payout back: the campaign stays marked as paid out
/// through every later donation, proposal, ballot and refund.
pub proof fn lemma_payout_is_final(
    v: FundView,
    who: Pubkey,
    other: Pubkey,
    hash: [u8; 32],
    amount: u64,
    approve: bool,
    now: i64,
)
    requires
        v.campaign.has_executed_proposal,
    ensures
        v.after_donate(who, amount, now).campaign.has_executed_proposal,
        v.after_create_proposal(who, other, hash, amount).campaign.has_executed_proposal,
        v.after_vote(who, other, approve).campaign.has_executed_proposal,
        v.after_execute(who, other, now).campaign.has_executed_proposal,
        v.after_refund(who, now).campaign.has_executed_proposal,
{
}

/// Mutual exclusion: a campaign that has paid out never refunds.
pub proof fn lemma_no_refund_after_payout(ctx: Refund)
    requires
        ctx.campaign.has_executed_proposal,
    ensures
        refund_error(ctx) is Some,
        ctx.now > ctx.campaign.deadline ==> refund_error(ctx) == Some(
            CustomError::ProposalAlreadyExecuted,
        ),
{
}

/// Mutual exclusion: no proposal is executed after the deadline, and on a
/// campaign that has not paid out the refusal names the deadline unless the
/// proposal is settled or the campaign is closed.
pub proof fn lemma_no_execution_after_deadline(ctx: ExecuteProposal)
    requires
        ctx.now > ctx.campaign.deadline,
    ensures
        execute_error(ctx) is Some,
        !ctx.proposal.executed && !ctx.campaign.has_executed_proposal && ctx.campaign.is_active
            ==> execute_error(ctx) == Some(CustomError::CampaignExpired),
{
}

/// Mutual exclusion, on a campaign's books: after a payout no refund is
/// made, and after the deadline no payout.
pub proof fn lemma_payout_excludes_refund(v: FundView, who: Pubkey, recipient: Pubkey, now: i64)
    ensures
        v.campaign.has_executed_proposal ==> v.refund_refusal(who, now) is Some,
        now > v.campaign.deadline ==> v.execute_refusal(who, recipient, now) is Some,
{
}

/// Vote integrity: a voter whose ballot on a proposal was accepted is
/// refused on that proposal ever after, whichever way the second ballot goes.
pub proof fn lemma_second_ballot_refused(
    v: FundView,
    proposer: Pubkey,
    voter: Pubkey,
    approve: bool,
    again: bool,
)
    requires
        v.wf(),
        v.vote_refusal(proposer, voter, approve) is None,
    ensures
        v.after_vote(proposer, voter, approve).vote_refusal(proposer, voter, again) == Some(
            FundError::AccountInUse,
        ),
{
    let w = v.after_vote(proposer, voter, approve);
    let i = v.proposal_index(proposer)->Some_0;
    lemma_vote_keeps_wf(v, proposer, voter, approve);
    assert(0 <= i < v.proposals.len() && v.proposals[i].proposer == proposer);
    assert(w.proposals[i].proposer == proposer);
    lemma_proposal_index(w, i, proposer);
    let key = VoteKey { proposer, voter };
    assert(w.votes[v.votes.len() as int] == key);
}

/// The voters recorded on the proposal of `proposer`.
pub open spec fn voters_on(votes: Seq<VoteKey>, proposer: Pubkey) -> Set<Pubkey> {
    Set::new(|voter: Pubkey| votes.contains(VoteKey { proposer, voter }))
}

/// Where no ballot is recorded twice, the ballots counted for a proposal are
/// as many as the distinct voters recorded on it.
pub proof fn lemma_ballots_count_voters(votes: Seq<VoteKey>, proposer: Pubkey)
    requires
        votes.no_duplicates(),
    ensures
        voters_on(votes, proposer).finite(),
        voters_on(votes, proposer).len() == ballots_on(votes, proposer),
    decreases votes.len(),
{
    if votes.len() == 0 {
        assert(voters_on(votes, proposer) =~= Set::<Pubkey>::empty());
    } else {
        let init = votes.drop_last();
        let last = votes.last();
        let n = init.len() as int;
        lemma_ballots_count_voters(init, proposer);
        assert(ballot_marks(votes, proposer).drop_last() =~= ballot_marks(init, proposer));
        assert forall|k: VoteKey| votes.contains(k) <==> (init.contains(k) || k == last) by {
            if votes.contains(k) {
                let i = choose|i: int| 0 <= i < votes.len() && votes[i] == k;
                if i < n {
                    assert(init[i] == k);
                }
            }
            if init.contains(k) {
                let i = choose|i: int| 0 <= i < init.len() && init[i] == k;
                assert(votes[i] == k);
            }
            if k == last {
                assert(votes[n] == k);
            }
        }
        if last.proposer == proposer {
            assert(!init.contains(last)) by {
                if init.contains(last) {
                    let i = choose|i: int| 0 <= i < init.len() && init[i] == last;
                    assert(votes[i] == votes[n]);
                }
            }
            assert(voters_on(votes, proposer) =~= voters_on(init, proposer).insert(last.voter));
        } else {
            assert(voters_on(votes, proposer) =~= voters_on(init, proposer));
        }
    }
}

/// Vote integrity: in consistent books no ballot is recorded twice, and the
/// yes and no votes of each proposal add up to the number of voters recorded
/// for it.
pub proof fn lemma_votes_add_up(v: FundView, i: int)
    requires
        v.wf(),
        0 <= i < v.proposals.len(),
    ensures
        v.proposals[i].yes_votes + v.proposals[i].no_votes == ballots_on(
            v.votes,
            v.proposals[i].proposer,
        ),
        v.votes.no_duplicates(),
        v.proposals[i].yes_votes + v.proposals[i].no_votes == voters_on(
            v.votes,
            v.proposals[i].proposer,
        ).len(),
{
    assert forall|a: int, b: int|
        0 <= a < v.votes.len() && 0 <= b < v.votes.len() && a != b implies v.votes[a] != v.votes[b] by {
        if a < b {
            assert(v.votes[a] != v.votes[b]);
        } else {
            assert(v.votes[b] != v.votes[a]);
        }
    }
    lemma_ballots_count_voters(v.votes, v.proposals[i].proposer);
}

/// Recipient immutability over a proposal's lifetime: what was fixed at
/// creation and kept by each step is kept by any number of steps.
pub proof fn lemma_frozen_transitive(a: FundView, b: FundView, c: FundView)
    requires
        a.proposals_frozen_in(b),
        b.proposals_frozen_in(c),
    ensures
        a.proposals_frozen_in(c),
{
    assert forall|i: int| 0 <= i < a.proposals.len() implies (#[trigger] c.proposals[i]).same_frozen_fields(
        a.proposals[i],
    ) by {
        assert(b.proposals[i].same_frozen_fields(a.proposals[i]));
        assert(c.proposals[i].same_frozen_fields(b.proposals[i]));
    }
}

/// Recipient immutability at creation: a new proposal holds the recipient,
/// hash and amount that were passed in.
pub proof fn lemma_created_as_passed(
    v: FundView,
    proposer: Pubkey,
    recipient_wallet: Pubkey,
    recipient_identity_hash: [u8; 32],
    amount: u64,
)
    ensures
        ({
            let p = v.after_create_proposal(
                proposer,
                recipient_wallet,
                recipient_identity_hash,
                amount,
            ).proposals.last();
            &&& p.proposer == proposer
            &&& p.recipient_wallet == recipient_wallet
            &&& p.recipient_identity_hash == recipient_identity_hash
            &&& p.amount == amount
        }),
{
}

} // verus!
