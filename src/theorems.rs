//! Properties of the ledger that span several operations or every state.
use vstd::prelude::*;

use crate::error::LedgerError;
use crate::ledger::{
    all_credits_cast, create_dao_error, create_proposal_error, credits_cast, proposals_under,
    voters_on, votes_on, VotingLedger,
};
use crate::state::{vote_type_of, Caller, ProposalId, Vote, VoteType};

verus! {

/// Creating a DAO with valid input always succeeds, and the new DAO has no
/// proposals and `admin` as its authority.
pub proof fn lemma_new_dao_is_empty(
    old: VotingLedger,
    new: VotingLedger,
    admin: Caller,
    name: String,
    r: Result<u64, LedgerError>,
)
    requires
        old.wf(),
        VotingLedger::create_dao_post(old, new, admin, name, r),
        create_dao_error(old.daos().len(), admin, name@) is None,
    ensures
        r is Ok,
        new.daos()[r->Ok_0 as int].proposal_count == 0,
        new.daos()[r->Ok_0 as int].authority == admin.identity,
        new.daos()[r->Ok_0 as int].name == name,
{
}

/// The `n`-th proposal created under a DAO gets sequence index `n - 1`, and
/// afterwards the DAO's counter is `n`.
pub proof fn lemma_proposal_sequence(
    old: VotingLedger,
    new: VotingLedger,
    admin: Caller,
    dao: u64,
    metadata: String,
    r: Result<ProposalId, LedgerError>,
)
    requires
        old.wf(),
        VotingLedger::create_proposal_post(old, new, admin, dao, metadata, r),
        r is Ok,
    ensures
        r->Ok_0.dao == dao,
        proposals_under(new.proposals(), dao) == r->Ok_0.index + 1,
        new.daos()[dao as int].proposal_count == proposals_under(new.proposals(), dao),
{
    assert(create_proposal_error(old.daos(), admin, dao, metadata@) is None);
}

/// In every state of the ledger, each proposal's index counts the proposals
/// created before it under the same DAO.
pub proof fn lemma_index_counts_earlier(l: VotingLedger, k: int)
    requires
        l.wf(),
        0 <= k < l.proposals().len(),
    ensures
        l.proposals()[k].id.index == proposals_under(
            l.proposals().take(k),
            l.proposals()[k].id.dao,
        ),
{
}

/// The two tallies of a proposal together hold the credits of every vote on
/// it, and the votes on it come from that many distinct voters.
pub proof fn lemma_tallies_sum_votes(l: VotingLedger, k: int)
    requires
        l.wf(),
        0 <= k < l.proposals().len(),
    ensures
        l.proposals()[k].yes_vote_count + l.proposals()[k].no_vote_count == all_credits_cast(
            l.votes(),
            l.proposals()[k].id,
        ),
        voters_on(l.votes(), l.proposals()[k].id).finite(),
        voters_on(l.votes(), l.proposals()[k].id).len() == votes_on(
            l.votes(),
            l.proposals()[k].id,
        ),
{
    let id = l.proposals()[k].id;
    lemma_credits_split(l.votes(), id);
    lemma_voters_distinct(l.votes(), id);
}

/// Once a voter has voted on a proposal, a further valid vote by that voter
/// on it fails with `DuplicateVote` and changes nothing.
pub proof fn lemma_second_vote_refused(
    l0: VotingLedger,
    l1: VotingLedger,
    l2: VotingLedger,
    voter: Caller,
    id: ProposalId,
    code: u8,
    balance: u64,
    v: Vote,
    code2: u8,
    balance2: u64,
    r2: Result<Vote, LedgerError>,
)
    requires
        l0.wf(),
        VotingLedger::cast_vote_post(l0, l1, voter, id, code, balance, Ok(v)),
        VotingLedger::cast_vote_post(l1, l2, voter, id, code2, balance2, r2),
        vote_type_of(code2) is Some,
    ensures
        r2 == Err::<Vote, LedgerError>(LedgerError::DuplicateVote),
        l2 == l1,
{
    let n = l0.votes().len() as int;
    assert(l1.votes()[n] == v);
    assert(exists|k: int|
        0 <= k < l1.proposals().len() && (#[trigger] l1.proposals()[k]).id == id) by {
        let k = choose|k: int|
            0 <= k < l0.proposals().len() && (#[trigger] l0.proposals()[k]).id == id;
        assert(l1.proposals()[k].id == id);
    }
}

/// Yes and no credits together make all the credits on a proposal.
proof fn lemma_credits_split(vs: Seq<Vote>, id: ProposalId)
    ensures
        credits_cast(vs, id, VoteType::Yes) + credits_cast(vs, id, VoteType::No)
            == all_credits_cast(vs, id),
    decreases vs.len(),
{
    if vs.len() > 0 {
        lemma_credits_split(vs.drop_last(), id);
    }
}

/// Every voter on a proposal has a vote on it in `vs`.
proof fn lemma_voter_has_vote(vs: Seq<Vote>, id: ProposalId, x: u64)
    requires
        voters_on(vs, id).contains(x),
    ensures
        exists|i: int| 0 <= i < vs.len() && (#[trigger] vs[i]).voter == x && vs[i].proposal == id,
    decreases vs.len(),
{
    let last = vs.len() - 1;
    if !(vs.last().proposal == id && vs.last().voter == x) {
        lemma_voter_has_vote(vs.drop_last(), id, x);
        let i = choose|i: int|
            0 <= i < vs.drop_last().len() && (#[trigger] vs.drop_last()[i]).voter == x
                && vs.drop_last()[i].proposal == id;
        assert(vs[i] == vs.drop_last()[i]);
    } else {
        assert(vs[last].voter == x);
    }
}

/// Where no voter votes twice on a proposal, its votes and its voters are
/// equal in number.
proof fn lemma_voters_distinct(vs: Seq<Vote>, id: ProposalId)
    requires
        forall|i: int, j: int| 0 <= i < vs.len() && 0 <= j < vs.len() && i != j
            ==> !((#[trigger] vs[i]).voter == (#[trigger] vs[j]).voter
                && vs[i].proposal == vs[j].proposal),
    ensures
        voters_on(vs, id).finite(),
        voters_on(vs, id).len() == votes_on(vs, id),
    decreases vs.len(),
{
    if vs.len() > 0 {
        let init = vs.drop_last();
        assert forall|i: int, j: int| 0 <= i < init.len() && 0 <= j < init.len() && i != j
            implies !((#[trigger] init[i]).voter == (#[trigger] init[j]).voter
            && init[i].proposal == init[j].proposal) by {
            assert(init[i] == vs[i] && init[j] == vs[j]);
        }
        lemma_voters_distinct(init, id);
        let v = vs.last();
        if v.proposal == id && voters_on(init, id).contains(v.voter) {
            lemma_voter_has_vote(init, id, v.voter);
            let i = choose|i: int|
                0 <= i < init.len() && (#[trigger] init[i]).voter == v.voter
                    && init[i].proposal == id;
            assert(vs[i] == init[i]);
            assert(vs[vs.len() - 1] == v);
        }
    }
}

} // verus!
