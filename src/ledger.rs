//! The voting ledger: DAOs, proposals and votes, and the three operations
//! that create them.
use vstd::prelude::*;
use vstd::string::StrSliceExecFns;

use crate::constants::{MAX_METADATA_LEN, MAX_NAME_LEN};
use crate::credits::{floor_sqrt, vote_credits};
use crate::error::LedgerError;
use crate::state::{vote_type_of, Caller, Dao, Proposal, ProposalId, Vote, VoteType};

verus! {

/// How many proposals in `ps` belong to `dao`.
pub open spec fn proposals_under(ps: Seq<Proposal>, dao: u64) -> nat
    decreases ps.len(),
{
    if ps.len() == 0 {
        0
    } else {
        proposals_under(ps.drop_last(), dao) + if ps.last().id.dao == dao { 1nat } else { 0nat }
    }
}

/// The ids of the proposals in `ps` that belong to `dao`, in order of creation.
pub open spec fn proposal_ids_under(ps: Seq<Proposal>, dao: u64) -> Seq<ProposalId>
    decreases ps.len(),
{
    if ps.len() == 0 {
        Seq::empty()
    } else if ps.last().id.dao == dao {
        proposal_ids_under(ps.drop_last(), dao).push(ps.last().id)
    } else {
        proposal_ids_under(ps.drop_last(), dao)
    }
}

/// The sum of the credits of the votes in `vs` of type `t` on proposal `id`.
pub open spec fn credits_cast(vs: Seq<Vote>, id: ProposalId, t: VoteType) -> nat
    decreases vs.len(),
{
    if vs.len() == 0 {
        0
    } else {
        let v = vs.last();
        credits_cast(vs.drop_last(), id, t) + if v.proposal == id && v.vote_type == t {
            v.vote_credits as nat
        } else {
            0nat
        }
    }
}

/// The sum of the credits of all votes in `vs` on proposal `id`.
pub open spec fn all_credits_cast(vs: Seq<Vote>, id: ProposalId) -> nat
    decreases vs.len(),
{
    if vs.len() == 0 {
        0
    } else {
        let v = vs.last();
        all_credits_cast(vs.drop_last(), id) + if v.proposal == id {
            v.vote_credits as nat
        } else {
            0nat
        }
    }
}

/// How many votes in `vs` are on proposal `id`.
pub open spec fn votes_on(vs: Seq<Vote>, id: ProposalId) -> nat
    decreases vs.len(),
{
    if vs.len() == 0 {
        0
    } else {
        votes_on(vs.drop_last(), id) + if vs.last().proposal == id { 1nat } else { 0nat }
    }
}

/// The voters who cast a vote in `vs` on proposal `id`.
pub open spec fn voters_on(vs: Seq<Vote>, id: ProposalId) -> Set<u64>
    decreases vs.len(),
{
    if vs.len() == 0 {
        Set::empty()
    } else if vs.last().proposal == id {
        voters_on(vs.drop_last(), id).insert(vs.last().voter)
    } else {
        voters_on(vs.drop_last(), id)
    }
}

/// Whether `ps` holds a proposal with this id.
pub open spec fn has_proposal(ps: Seq<Proposal>, id: ProposalId) -> bool {
    exists|k: int| 0 <= k < ps.len() && (#[trigger] ps[k]).id == id
}

/// Whether `vs` holds a vote by `voter` on proposal `id`.
pub open spec fn has_vote(vs: Seq<Vote>, voter: u64, id: ProposalId) -> bool {
    exists|k: int| 0 <= k < vs.len() && (#[trigger] vs[k]).voter == voter && vs[k].proposal == id
}

/// The tally of `p` that votes of type `t` go to.
pub open spec fn tally_of(p: Proposal, t: VoteType) -> u64 {
    match t {
        VoteType::Yes => p.yes_vote_count,
        VoteType::No => p.no_vote_count,
    }
}

/// `p` with `c` more credits on its tally for `t`.
pub open spec fn with_credits(p: Proposal, t: VoteType, c: u64) -> Proposal {
    match t {
        VoteType::Yes => Proposal { yes_vote_count: (p.yes_vote_count + c) as u64, ..p },
        VoteType::No => Proposal { no_vote_count: (p.no_vote_count + c) as u64, ..p },
    }
}

/// Why creating a DAO with this name, by this caller, in a ledger of
/// `n_daos` DAOs fails, if it does.
pub open spec fn create_dao_error(n_daos: nat, admin: Caller, name: Seq<char>) -> Option<LedgerError> {
    if !admin.verified {
        Some(LedgerError::Unauthenticated)
    } else if name.len() > MAX_NAME_LEN {
        Some(LedgerError::InvalidInput)
    } else if n_daos >= u64::MAX {
        Some(LedgerError::Overflow)
    } else {
        None
    }
}

/// Why creating a proposal under `dao` fails, if it does.
pub open spec fn create_proposal_error(
    ds: Seq<Dao>,
    admin: Caller,
    dao: u64,
    metadata: Seq<char>,
) -> Option<LedgerError> {
    if !admin.verified {
        Some(LedgerError::Unauthenticated)
    } else if metadata.len() > MAX_METADATA_LEN {
        Some(LedgerError::InvalidInput)
    } else if dao >= ds.len() {
        Some(LedgerError::NotFound)
    } else if ds[dao as int].proposal_count == u32::MAX {
        Some(LedgerError::Overflow)
    } else {
        None
    }
}

/// Why casting this vote fails, if it does.
pub open spec fn cast_vote_error(
    ps: Seq<Proposal>,
    vs: Seq<Vote>,
    voter: Caller,
    id: ProposalId,
    code: u8,
    balance: u64,
) -> Option<LedgerError> {
    if !voter.verified {
        Some(LedgerError::Unauthenticated)
    } else if vote_type_of(code) is None {
        Some(LedgerError::InvalidInput)
    } else if !has_proposal(ps, id) {
        Some(LedgerError::NotFound)
    } else if has_vote(vs, voter.identity, id) {
        Some(LedgerError::DuplicateVote)
    } else if exists|k: int|
        0 <= k < ps.len() && (#[trigger] ps[k]).id == id
            && tally_of(ps[k], vote_type_of(code).unwrap()) + floor_sqrt(balance as nat) > u64::MAX {
        Some(LedgerError::Overflow)
    } else {
        None
    }
}

/// A DAO that no proposal names has no proposals.
proof fn lemma_none_under(ps: Seq<Proposal>, dao: u64)
    requires
        forall|k: int| 0 <= k < ps.len() ==> (#[trigger] ps[k]).id.dao != dao,
    ensures
        proposals_under(ps, dao) == 0,
    decreases ps.len(),
{
    if ps.len() > 0 {
        lemma_none_under(ps.drop_last(), dao);
    }
}

/// Appending a proposal adds one to the count of its DAO alone.
proof fn lemma_under_push(ps: Seq<Proposal>, p: Proposal, dao: u64)
    ensures
        proposals_under(ps.push(p), dao) == proposals_under(ps, dao) + if p.id.dao == dao { 1nat } else { 0nat },
{
    assert(ps.push(p).drop_last() =~= ps);
}

/// A proposal that no vote names has no credits on either tally.
proof fn lemma_no_credits(vs: Seq<Vote>, id: ProposalId, t: VoteType)
    requires
        forall|k: int| 0 <= k < vs.len() ==> (#[trigger] vs[k]).proposal != id,
    ensures
        credits_cast(vs, id, t) == 0,
    decreases vs.len(),
{
    if vs.len() > 0 {
        lemma_no_credits(vs.drop_last(), id, t);
    }
}

/// The count of proposals under a DAO reads only the proposals' ids.
proof fn lemma_under_same_ids(a: Seq<Proposal>, b: Seq<Proposal>, dao: u64)
    requires
        a.len() == b.len(),
        forall|i: int| 0 <= i < a.len() ==> (#[trigger] a[i]).id == b[i].id,
    ensures
        proposals_under(a, dao) == proposals_under(b, dao),
    decreases a.len(),
{
    if a.len() > 0 {
        lemma_under_same_ids(a.drop_last(), b.drop_last(), dao);
    }
}

/// Appending a vote adds its credits to the one tally that it names.
proof fn lemma_credits_push(vs: Seq<Vote>, v: Vote, id: ProposalId, t: VoteType)
    ensures
        credits_cast(vs.push(v), id, t) == credits_cast(vs, id, t) + if v.proposal == id
            && v.vote_type == t {
            v.vote_credits as nat
        } else {
            0nat
        },
{
    assert(vs.push(v).drop_last() =~= vs);
}

/// The ledger: every DAO, proposal and vote, each in order of creation.
/// A DAO's id is its position among the DAOs.
pub struct VotingLedger {
    daos: Vec<Dao>,
    proposals: Vec<Proposal>,
    votes: Vec<Vote>,
}

impl VotingLedger {
    /// The DAOs, indexed by id.
    pub closed spec fn daos(&self) -> Seq<Dao> {
        self.daos@
    }

    /// The proposals, in order of creation.
    pub closed spec fn proposals(&self) -> Seq<Proposal> {
        self.proposals@
    }

    /// The votes, in order of creation.
    pub closed spec fn votes(&self) -> Seq<Vote> {
        self.votes@
    }

    /// The ledger's invariant: counters agree with the records, sequence
    /// indices are handed out in order, tallies agree with the votes, and no
    /// voter has two votes on one proposal.
    pub open spec fn wf(&self) -> bool {
        let ds = self.daos();
        let ps = self.proposals();
        let vs = self.votes();
        &&& ds.len() <= u64::MAX
        &&& forall|d: int| 0 <= d < ds.len() ==>
            (#[trigger] ds[d]).proposal_count == proposals_under(ps, d as u64)
        &&& forall|k: int| 0 <= k < ps.len() ==> {
            let id = (#[trigger] ps[k]).id;
            &&& id.dao < ds.len()
            &&& id.index < ds[id.dao as int].proposal_count
            &&& id.index == proposals_under(ps.take(k), id.dao)
            &&& ps[k].yes_vote_count == credits_cast(vs, id, VoteType::Yes)
            &&& ps[k].no_vote_count == credits_cast(vs, id, VoteType::No)
        }
        &&& forall|j: int, k: int| 0 <= j < ps.len() && 0 <= k < ps.len() && j != k
            ==> (#[trigger] ps[j]).id != (#[trigger] ps[k]).id
        &&& forall|k: int| 0 <= k < vs.len() ==> {
            let id = (#[trigger] vs[k]).proposal;
            id.dao < ds.len() && id.index < ds[id.dao as int].proposal_count
        }
        &&& forall|j: int, k: int| 0 <= j < vs.len() && 0 <= k < vs.len() && j != k
            ==> !((#[trigger] vs[j]).voter == (#[trigger] vs[k]).voter
                && vs[j].proposal == vs[k].proposal)
    }

    /// An empty ledger.
    pub fn new() -> (r: VotingLedger)
        ensures
            r.wf(),
            r.daos() == Seq::<Dao>::empty(),
            r.proposals() == Seq::<Proposal>::empty(),
            r.votes() == Seq::<Vote>::empty(),
    {
        VotingLedger { daos: Vec::new(), proposals: Vec::new(), votes: Vec::new() }
    }

    /// The DAO with this id, if there is one.
    pub fn get_dao(&self, id: u64) -> (r: Option<&Dao>)
        ensures
            match r {
                Some(d) => id < self.daos().len() && *d == self.daos()[id as int],
                None => id >= self.daos().len(),
            },
    {
        if id < self.daos.len() as u64 {
            Some(&self.daos[id as usize])
        } else {
            None
        }
    }

    /// The proposal with this id, if there is one.
    pub fn get_proposal(&self, id: ProposalId) -> (r: Option<&Proposal>)
        requires
            self.wf(),
        ensures
            match r {
                Some(p) => exists|k: int|
                    0 <= k < self.proposals().len() && #[trigger] self.proposals()[k] == *p
                        && p.id == id,
                None => !has_proposal(self.proposals(), id),
            },
    {
        match self.find_proposal(id) {
            Some(k) => {
                assert(self.proposals()[k as int] == self.proposals@[k as int]);
                Some(&self.proposals[k])
            },
            None => None,
        }
    }

    /// The vote by `voter` on proposal `id`, if there is one.
    pub fn get_vote(&self, voter: u64, id: ProposalId) -> (r: Option<Vote>)
        requires
            self.wf(),
        ensures
            match r {
                Some(v) => v.voter == voter && v.proposal == id && self.votes().contains(v),
                None => !has_vote(self.votes(), voter, id),
            },
    {
        match self.find_vote(voter, id) {
            Some(k) => {
                assert(self.votes()[k as int] == self.votes@[k as int]);
                Some(self.votes[k])
            },
            None => None,
        }
    }

    /// The ids of the proposals under DAO `dao`, in order of creation.
    pub fn list_proposals(&self, dao: u64) -> (r: Vec<ProposalId>)
        ensures
            r@ == proposal_ids_under(self.proposals(), dao),
    {
        let mut r: Vec<ProposalId> = Vec::new();
        let mut k: usize = 0;
        while k < self.proposals.len()
            invariant
                k <= self.proposals@.len(),
                r@ == proposal_ids_under(self.proposals@.take(k as int), dao),
            decreases self.proposals@.len() - k,
        {
            assert(self.proposals@.take(k + 1).drop_last() =~= self.proposals@.take(k as int));
            if self.proposals[k].id.dao == dao {
                r.push(self.proposals[k].id);
            }
            k = k + 1;
        }
        assert(self.proposals@.take(k as int) =~= self.proposals@);
        r
    }

    /// What `create_dao` does: on success the new DAO, with no proposals and
    /// `admin` as its authority, is appended and its id is its position; on
    /// failure nothing changes.
    pub open spec fn create_dao_post(
        old: VotingLedger,
        new: VotingLedger,
        admin: Caller,
        name: String,
        r: Result<u64, LedgerError>,
    ) -> bool {
        &&& new.wf()
        &&& match create_dao_error(old.daos().len(), admin, name@) {
            Some(e) => r == Err::<u64, LedgerError>(e) && new == old,
            None => {
                &&& r == Ok::<u64, LedgerError>(old.daos().len() as u64)
                &&& new.daos() == old.daos().push(
                    Dao { name: name, authority: admin.identity, proposal_count: 0 },
                )
                &&& new.proposals() == old.proposals()
                &&& new.votes() == old.votes()
            },
        }
    }

    /// Creates a DAO with `admin` as its authority.
    pub fn create_dao(&mut self, admin: Caller, name: String) -> (r: Result<u64, LedgerError>)
        requires
            old(self).wf(),
        ensures
            Self::create_dao_post(*old(self), *final(self), admin, name, r),
    {
        if !admin.verified {
            return Err(LedgerError::Unauthenticated);
        }
        if name.as_str().unicode_len() > MAX_NAME_LEN {
            return Err(LedgerError::InvalidInput);
        }
        let n: usize = self.daos.len();
        if n as u64 >= u64::MAX {
            return Err(LedgerError::Overflow);
        }
        let ghost pre = *self;
        let ghost ps = self.proposals@;
        self.daos.push(Dao { name, authority: admin.identity, proposal_count: 0 });
        proof {
            assert forall|k: int| 0 <= k < ps.len() implies (#[trigger] ps[k]).id.dao != n as u64 by {
                assert(pre.proposals()[k].id.dao < n);
            }
            lemma_none_under(ps, n as u64);
            assert(self.daos@[n as int].proposal_count == proposals_under(ps, n as u64));
            assert forall|k: int| 0 <= k < self.votes@.len() implies {
                let id = (#[trigger] self.votes@[k]).proposal;
                id.dao < self.daos@.len() && id.index < self.daos@[id.dao as int].proposal_count
            } by {
                let id = pre.votes()[k].proposal;
                assert(self.daos@[id.dao as int] == pre.daos()[id.dao as int]);
            }
            assert forall|k: int| 0 <= k < ps.len() implies
                (#[trigger] ps[k]).id.index < self.daos@[ps[k].id.dao as int].proposal_count by {
                assert(self.daos@[ps[k].id.dao as int] == pre.daos()[ps[k].id.dao as int]);
            }
        }
        Ok(n as u64)
    }

    /// The position of the proposal with this id, if there is one.
    fn find_proposal(&self, id: ProposalId) -> (r: Option<usize>)
        ensures
            match r {
                Some(k) => k < self.proposals@.len() && self.proposals@[k as int].id == id,
                None => !has_proposal(self.proposals@, id),
            },
    {
        let mut k: usize = 0;
        while k < self.proposals.len()
            invariant
                k <= self.proposals@.len(),
                forall|j: int| 0 <= j < k ==> (#[trigger] self.proposals@[j]).id != id,
            decreases self.proposals@.len() - k,
        {
            if self.proposals[k].id == id {
                return Some(k);
            }
            k = k + 1;
        }
        None
    }

    /// The position of the vote by `voter` on proposal `id`, if there is one.
    fn find_vote(&self, voter: u64, id: ProposalId) -> (r: Option<usize>)
        ensures
            match r {
                Some(k) => k < self.votes@.len() && self.votes@[k as int].voter == voter
                    && self.votes@[k as int].proposal == id,
                None => !has_vote(self.votes@, voter, id),
            },
    {
        let mut k: usize = 0;
        while k < self.votes.len()
            invariant
                k <= self.votes@.len(),
                forall|j: int|
                    0 <= j < k ==> !((#[trigger] self.votes@[j]).voter == voter
                        && self.votes@[j].proposal == id),
            decreases self.votes@.len() - k,
        {
            if self.votes[k].voter == voter && self.votes[k].proposal == id {
                return Some(k);
            }
            k = k + 1;
        }
        None
    }

    /// What `create_proposal` does: on success the DAO's counter goes up by
    /// one, the new proposal takes the counter's old value as its index and
    /// starts with empty tallies; on failure nothing changes.
    pub open spec fn create_proposal_post(
        old: VotingLedger,
        new: VotingLedger,
        admin: Caller,
        dao: u64,
        metadata: String,
        r: Result<ProposalId, LedgerError>,
    ) -> bool {
        &&& new.wf()
        &&& match create_proposal_error(old.daos(), admin, dao, metadata@) {
            Some(e) => r == Err::<ProposalId, LedgerError>(e) && new == old,
            None => {
                let d = old.daos()[dao as int];
                let id = ProposalId { dao, index: d.proposal_count };
                &&& r == Ok::<ProposalId, LedgerError>(id)
                &&& new.daos() == old.daos().update(
                    dao as int,
                    Dao { proposal_count: (d.proposal_count + 1) as u32, ..d },
                )
                &&& new.proposals() == old.proposals().push(
                    Proposal {
                        id,
                        authority: admin.identity,
                        metadata,
                        yes_vote_count: 0,
                        no_vote_count: 0,
                    },
                )
                &&& new.votes() == old.votes()
            },
        }
    }

    /// Creates a proposal under DAO `dao`; any verified caller may do so.
    pub fn create_proposal(&mut self, admin: Caller, dao: u64, metadata: String) -> (r: Result<
        ProposalId,
        LedgerError,
    >)
        requires
            old(self).wf(),
        ensures
            Self::create_proposal_post(*old(self), *final(self), admin, dao, metadata, r),
    {
        if !admin.verified {
            return Err(LedgerError::Unauthenticated);
        }
        if metadata.as_str().unicode_len() > MAX_METADATA_LEN {
            return Err(LedgerError::InvalidInput);
        }
        if dao >= self.daos.len() as u64 {
            return Err(LedgerError::NotFound);
        }
        let d: usize = dao as usize;
        let count: u32 = self.daos[d].proposal_count;
        if count == u32::MAX {
            return Err(LedgerError::Overflow);
        }
        let id = ProposalId { dao, index: count };
        let ghost pre = *self;
        let ghost ps = self.proposals@;
        let ghost vs = self.votes@;
        let p = Proposal {
            id,
            authority: admin.identity,
            metadata,
            yes_vote_count: 0,
            no_vote_count: 0,
        };
        self.proposals.push(p);
        self.daos[d].proposal_count = count + 1;
        proof {
            let ds = self.daos@;
            let ps2 = self.proposals@;
            assert forall|e: int| 0 <= e < ds.len() implies
                (#[trigger] ds[e]).proposal_count == proposals_under(ps2, e as u64) by {
                lemma_under_push(ps, p, e as u64);
                assert(pre.daos()[e].proposal_count == proposals_under(ps, e as u64));
            }
            assert forall|k: int| 0 <= k < vs.len() implies (#[trigger] vs[k]).proposal != id by {
                assert(pre.votes()[k].proposal.index < pre.daos()[pre.votes()[k].proposal.dao as int].proposal_count);
            }
            lemma_no_credits(vs, id, VoteType::Yes);
            lemma_no_credits(vs, id, VoteType::No);
            assert forall|k: int| 0 <= k < ps2.len() implies {
                let pid = (#[trigger] ps2[k]).id;
                &&& pid.dao < ds.len()
                &&& pid.index < ds[pid.dao as int].proposal_count
                &&& pid.index == proposals_under(ps2.take(k), pid.dao)
                &&& ps2[k].yes_vote_count == credits_cast(vs, pid, VoteType::Yes)
                &&& ps2[k].no_vote_count == credits_cast(vs, pid, VoteType::No)
            } by {
                if k < ps.len() {
                    assert(ps2.take(k) =~= ps.take(k));
                    assert(ps2[k] == pre.proposals()[k]);
                } else {
                    assert(ps2.take(k) =~= ps);
                }
            }
            assert forall|j: int, k: int| 0 <= j < ps2.len() && 0 <= k < ps2.len() && j != k
                implies (#[trigger] ps2[j]).id != (#[trigger] ps2[k]).id by {
                if j < ps.len() && k < ps.len() {
                    assert(pre.proposals()[j].id != pre.proposals()[k].id);
                } else if j < ps.len() {
                    assert(pre.proposals()[j].id.index < pre.daos()[pre.proposals()[j].id.dao as int].proposal_count);
                } else {
                    assert(pre.proposals()[k].id.index < pre.daos()[pre.proposals()[k].id.dao as int].proposal_count);
                }
            }
            assert forall|k: int| 0 <= k < vs.len() implies {
                let vid = (#[trigger] vs[k]).proposal;
                vid.dao < ds.len() && vid.index < ds[vid.dao as int].proposal_count
            } by {
                assert(pre.votes()[k] == vs[k]);
            }
            assert(ds =~= pre.daos().update(
                dao as int,
                Dao { proposal_count: (count + 1) as u32, ..pre.daos()[dao as int] },
            ));
        }
        Ok(id)
    }

    /// What `cast_vote` does: on success the vote, worth the integer square
    /// root of `balance` in credits, is appended and those credits go to the
    /// proposal's tally for the vote's type; on failure nothing changes.
    pub open spec fn cast_vote_post(
        old: VotingLedger,
        new: VotingLedger,
        voter: Caller,
        id: ProposalId,
        code: u8,
        balance: u64,
        r: Result<Vote, LedgerError>,
    ) -> bool {
        &&& new.wf()
        &&& match cast_vote_error(old.proposals(), old.votes(), voter, id, code, balance) {
            Some(e) => r == Err::<Vote, LedgerError>(e) && new == old,
            None => {
                let t = vote_type_of(code).unwrap();
                let c = floor_sqrt(balance as nat) as u64;
                let v = Vote { voter: voter.identity, proposal: id, vote_type: t, vote_credits: c };
                &&& r == Ok::<Vote, LedgerError>(v)
                &&& new.daos() == old.daos()
                &&& new.votes() == old.votes().push(v)
                &&& forall|k: int|
                    0 <= k < old.proposals().len() && (#[trigger] old.proposals()[k]).id == id
                        ==> new.proposals() == old.proposals().update(
                        k,
                        with_credits(old.proposals()[k], t, c),
                    )
            },
        }
    }

    /// Casts `voter`'s vote, of the type that `code` stands for, on proposal
    /// `id`, weighted by the voter's token balance `balance`.
    pub fn cast_vote(&mut self, voter: Caller, id: ProposalId, code: u8, balance: u64) -> (r:
        Result<Vote, LedgerError>)
        requires
            old(self).wf(),
        ensures
            Self::cast_vote_post(*old(self), *final(self), voter, id, code, balance, r),
    {
        if !voter.verified {
            return Err(LedgerError::Unauthenticated);
        }
        let t = match VoteType::from_code(code) {
            Some(t) => t,
            None => {
                return Err(LedgerError::InvalidInput);
            },
        };
        let k = match self.find_proposal(id) {
            Some(k) => k,
            None => {
                return Err(LedgerError::NotFound);
            },
        };
        if self.find_vote(voter.identity, id).is_some() {
            return Err(LedgerError::DuplicateVote);
        }
        let c = vote_credits(balance);
        let ghost pre = *self;
        let ghost ps = self.proposals@;
        let ghost vs = self.votes@;
        proof {
            assert forall|j: int| 0 <= j < ps.len() && (#[trigger] ps[j]).id == id implies j == k by {
                if j != k {
                    assert(pre.proposals()[j].id != pre.proposals()[k as int].id);
                }
            }
        }
        match t {
            VoteType::Yes => {
                let y = self.proposals[k].yes_vote_count;
                if y > u64::MAX - c {
                    return Err(LedgerError::Overflow);
                }
                self.proposals[k].yes_vote_count = y + c;
            },
            VoteType::No => {
                let n = self.proposals[k].no_vote_count;
                if n > u64::MAX - c {
                    return Err(LedgerError::Overflow);
                }
                self.proposals[k].no_vote_count = n + c;
            },
        }
        let v = Vote { voter: voter.identity, proposal: id, vote_type: t, vote_credits: c };
        self.votes.push(v);
        proof {
            let ds = self.daos@;
            let ps2 = self.proposals@;
            let vs2 = self.votes@;
            assert(ps2 =~= ps.update(k as int, with_credits(ps[k as int], t, c)));
            assert forall|e: int| 0 <= e < ds.len() implies
                (#[trigger] ds[e]).proposal_count == proposals_under(ps2, e as u64) by {
                lemma_under_same_ids(ps2, ps, e as u64);
                assert(pre.daos()[e].proposal_count == proposals_under(ps, e as u64));
            }
            assert forall|j: int| 0 <= j < ps2.len() implies {
                let pid = (#[trigger] ps2[j]).id;
                &&& pid.dao < ds.len()
                &&& pid.index < ds[pid.dao as int].proposal_count
                &&& pid.index == proposals_under(ps2.take(j), pid.dao)
                &&& ps2[j].yes_vote_count == credits_cast(vs2, pid, VoteType::Yes)
                &&& ps2[j].no_vote_count == credits_cast(vs2, pid, VoteType::No)
            } by {
                let pid = ps[j].id;
                assert(pre.proposals()[j].id == pid);
                lemma_under_same_ids(ps2.take(j), ps.take(j), pid.dao);
                lemma_credits_push(vs, v, pid, VoteType::Yes);
                lemma_credits_push(vs, v, pid, VoteType::No);
                if j != k {
                    assert(pre.proposals()[j].id != pre.proposals()[k as int].id);
                }
            }
            assert forall|i: int, j: int| 0 <= i < ps2.len() && 0 <= j < ps2.len() && i != j
                implies (#[trigger] ps2[i]).id != (#[trigger] ps2[j]).id by {
                assert(pre.proposals()[i].id != pre.proposals()[j].id);
            }
            assert forall|j: int| 0 <= j < vs2.len() implies {
                let vid = (#[trigger] vs2[j]).proposal;
                vid.dao < ds.len() && vid.index < ds[vid.dao as int].proposal_count
            } by {
                if j < vs.len() {
                    assert(pre.votes()[j] == vs2[j]);
                } else {
                    assert(pre.proposals()[k as int].id == id);
                }
            }
            assert forall|i: int, j: int| 0 <= i < vs2.len() && 0 <= j < vs2.len() && i != j
                implies !((#[trigger] vs2[i]).voter == (#[trigger] vs2[j]).voter
                && vs2[i].proposal == vs2[j].proposal) by {
                if i < vs.len() && j < vs.len() {
                    assert(pre.votes()[i] == vs2[i]);
                    assert(pre.votes()[j] == vs2[j]);
                } else if i < vs.len() {
                    assert(pre.votes()[i] == vs2[i]);
                } else {
                    assert(pre.votes()[j] == vs2[j]);
                }
            }
        }
        Ok(v)
    }
}

} // verus!
