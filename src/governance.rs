//! Voter registration and vote casting on time-bounded proposals, with one
//! vote per voter and proposal.

use crate::address::Address;
use crate::error::VoteError;
use crate::state::{Proposal, Voter};
use vstd::prelude::*;

verus! {

/// Number of distinct proposal ids.
pub const MAX_PROPOSALS: usize = 256;

/// The registered voters, at most one record per identity.
#[derive(Debug)]
pub struct VoterRegistry {
    pub voters: Vec<Voter>,
}

/// The proposals, each stored at the index equal to its id.
#[derive(Debug)]
pub struct ProposalLedger {
    pub proposals: Vec<Proposal>,
}

impl VoterRegistry {
    /// No identity has two records, and no voter lists a proposal twice.
    pub open spec fn wf(&self) -> bool {
        &&& forall|i: int, j: int|
            0 <= i < j < self.voters@.len() ==> (#[trigger] self.voters@[i]).voter_id@
                != (#[trigger] self.voters@[j]).voter_id@
        &&& forall|i: int| 0 <= i < self.voters@.len() ==> (#[trigger] self.voters@[i]).proposal_voted@.no_duplicates()
    }

    pub open spec fn registered(&self, id: Seq<u8>) -> bool {
        exists|i: int| 0 <= i < self.voters@.len() && (#[trigger] self.voters@[i]).voter_id@ == id
    }

    /// The index of the record of a registered identity.
    pub open spec fn index_of(&self, id: Seq<u8>) -> int {
        choose|i: int| 0 <= i < self.voters@.len() && (#[trigger] self.voters@[i]).voter_id@ == id
    }

    pub open spec fn has_voted(&self, id: Seq<u8>, proposal_id: u8) -> bool {
        exists|i: int|
            0 <= i < self.voters@.len() && (#[trigger] self.voters@[i]).voter_id@ == id
                && self.voters@[i].proposal_voted@.contains(proposal_id)
    }

    pub fn new() -> (r: VoterRegistry)
        ensures
            r.wf(),
            r.voters@.len() == 0,
    {
        VoterRegistry { voters: Vec::new() }
    }

    /// The index of the record of `id`, if it is registered.
    pub fn find(&self, id: &Address) -> (r: Option<usize>)
        requires
            self.wf(),
        ensures
            r is None <==> !self.registered(id@),
            r matches Some(i) ==> i < self.voters@.len() && self.voters@[i as int].voter_id@ == id@
                && i == self.index_of(id@),
    {
        let mut i: usize = 0;
        while i < self.voters.len()
            invariant
                self.wf(),
                0 <= i <= self.voters@.len(),
                forall|j: int| 0 <= j < i ==> (#[trigger] self.voters@[j]).voter_id@ != id@,
            decreases self.voters@.len() - i,
        {
            if self.voters[i].voter_id.same(id) {
                let ghost k = self.index_of(id@);
                assert(self.registered(id@));
                assert(0 <= k < self.voters@.len() && self.voters@[k].voter_id@ == id@);
                assert(k == i as int) by {
                    if k != i as int {
                        if k < i {
                            assert(self.voters@[k].voter_id@ != id@);
                        } else {
                            let ii = i as int;
                            assert(self.voters@[ii].voter_id@ != self.voters@[k].voter_id@);
                        }
                    }
                }
                return Some(i);
            }
            i = i + 1;
        }
        None
    }
}

impl ProposalLedger {
    /// Every proposal sits at the index equal to its id.
    pub open spec fn wf(&self) -> bool {
        &&& self.proposals@.len() <= MAX_PROPOSALS
        &&& forall|i: int| 0 <= i < self.proposals@.len() ==> (#[trigger] self.proposals@[i]).proposal_id == i
    }

    pub fn new() -> (r: ProposalLedger)
        ensures
            r.wf(),
            r.proposals@.len() == 0,
    {
        ProposalLedger { proposals: Vec::new() }
    }

    /// Opens a new proposal with no votes, under the next free id; fails with
    /// `ArithmeticOverflow` once every id is taken.
    pub fn create_proposal(&mut self, description: String, deadline: i64, authority: Address) -> (r: Result<u8, VoteError>)
        requires
            old(self).wf(),
        ensures
            final(self).wf(),
            old(self).proposals@.len() == MAX_PROPOSALS ==> r == Err::<u8, VoteError>(VoteError::ArithmeticOverflow)
                && *final(self) == *old(self),
            old(self).proposals@.len() < MAX_PROPOSALS ==> r == Ok::<u8, VoteError>(old(self).proposals@.len() as u8)
                && final(self).proposals@ == old(self).proposals@.push(
                Proposal {
                    proposal_id: old(self).proposals@.len() as u8,
                    number_of_votes: 0,
                    deadline,
                    proposal_info: description,
                    authority,
                },
            ),
    {
        if self.proposals.len() >= MAX_PROPOSALS {
            return Err(VoteError::ArithmeticOverflow);
        }
        let id = self.proposals.len() as u8;
        self.proposals.push(
            Proposal { proposal_id: id, number_of_votes: 0, deadline, proposal_info: description, authority },
        );
        Ok(id)
    }
}

/// Whether `proposal_id` is among the proposals `voter` has voted on.
pub fn voted_on(voter: &Voter, proposal_id: u8) -> (r: bool)
    ensures
        r == voter.proposal_voted@.contains(proposal_id),
{
    let mut i: usize = 0;
    while i < voter.proposal_voted.len()
        invariant
            0 <= i <= voter.proposal_voted@.len(),
            forall|j: int| 0 <= j < i ==> voter.proposal_voted@[j] != proposal_id,
        decreases voter.proposal_voted@.len() - i,
    {
        if voter.proposal_voted[i] == proposal_id {
            return true;
        }
        i = i + 1;
    }
    false
}

/// `after` is `before` with a record for `id` added that lists no votes.
pub open spec fn voter_added(before: VoterRegistry, after: VoterRegistry, id: Seq<u8>) -> bool {
    let n = before.voters@.len();
    &&& after.voters@.len() == n + 1
    &&& after.voters@.subrange(0, n as int) == before.voters@
    &&& after.voters@[n as int].voter_id@ == id
    &&& after.voters@[n as int].proposal_voted@ == Seq::<u8>::empty()
}

/// Registers `authority` as a voter with no votes cast; fails with
/// `AlreadyRegistered`, changing nothing, where it already is.
pub fn register_voter(registry: &mut VoterRegistry, authority: &Address) -> (r: Result<(), VoteError>)
    requires
        old(registry).wf(),
    ensures
        final(registry).wf(),
        old(registry).registered(authority@) ==> r == Err::<(), VoteError>(VoteError::AlreadyRegistered)
            && *final(registry) == *old(registry),
        !old(registry).registered(authority@) ==> r is Ok && voter_added(*old(registry), *final(registry), authority@),
{
    match registry.find(authority) {
        Some(_) => Err(VoteError::AlreadyRegistered),
        None => {
            let ghost before = registry.voters@;
            registry.voters.push(Voter { voter_id: *authority, proposal_voted: Vec::new() });
            assert(registry.voters@.subrange(0, before.len() as int) =~= before);
            assert forall|i: int, j: int|
                0 <= i < j < registry.voters@.len() implies (#[trigger] registry.voters@[i]).voter_id@
                != (#[trigger] registry.voters@[j]).voter_id@ by {
                if j == before.len() {
                    assert(before[i].voter_id@ != authority@);
                }
            }
            Ok(())
        },
    }
}

/// Why a vote by `voter` on `proposal_id` at time `now` fails, if it does:
/// the checks in the order the vote makes them.
pub open spec fn vote_check(
    registry: VoterRegistry,
    ledger: ProposalLedger,
    voter: Seq<u8>,
    proposal_id: u8,
    now: i64,
) -> Option<VoteError> {
    if !registry.registered(voter) {
        Some(VoteError::VoterNotRegistered)
    } else if proposal_id >= ledger.proposals@.len() {
        Some(VoteError::ProposalNotFound)
    } else if now >= ledger.proposals@[proposal_id as int].deadline {
        Some(VoteError::DeadlinePassed)
    } else if registry.has_voted(voter, proposal_id) {
        Some(VoteError::AlreadyVoted)
    } else if ledger.proposals@[proposal_id as int].number_of_votes == u8::MAX {
        Some(VoteError::ArithmeticOverflow)
    } else {
        None
    }
}

/// `(r1, l1)` is `(r0, l0)` with one vote by `voter` on `proposal_id`
/// applied: the proposal's count is one higher, the voter's record lists the
/// proposal, and nothing else changed.
pub open spec fn vote_applied(
    r0: VoterRegistry,
    l0: ProposalLedger,
    voter: Seq<u8>,
    proposal_id: u8,
    r1: VoterRegistry,
    l1: ProposalLedger,
) -> bool {
    let i = r0.index_of(voter);
    let p = proposal_id as int;
    &&& r1.voters@.len() == r0.voters@.len()
    &&& forall|j: int| 0 <= j < r0.voters@.len() && j != i ==> r1.voters@[j] == r0.voters@[j]
    &&& r1.voters@[i].voter_id == r0.voters@[i].voter_id
    &&& r1.voters@[i].proposal_voted@ == r0.voters@[i].proposal_voted@.push(proposal_id)
    &&& l1.proposals@.len() == l0.proposals@.len()
    &&& forall|j: int| 0 <= j < l0.proposals@.len() && j != p ==> l1.proposals@[j] == l0.proposals@[j]
    &&& l1.proposals@[p].number_of_votes == l0.proposals@[p].number_of_votes + 1
    &&& l1.proposals@[p].proposal_id == l0.proposals@[p].proposal_id
    &&& l1.proposals@[p].deadline == l0.proposals@[p].deadline
    &&& l1.proposals@[p].proposal_info == l0.proposals@[p].proposal_info
    &&& l1.proposals@[p].authority == l0.proposals@[p].authority
}

/// Casts `voter`'s vote on `proposal_id` at time `now`: counts it and marks
/// the proposal as voted in the voter's record, both or neither.
pub fn cast_vote(
    registry: &mut VoterRegistry,
    ledger: &mut ProposalLedger,
    voter: &Address,
    proposal_id: u8,
    now: i64,
) -> (r: Result<(), VoteError>)
    requires
        old(registry).wf(),
        old(ledger).wf(),
    ensures
        final(registry).wf(),
        final(ledger).wf(),
        r is Ok <==> vote_check(*old(registry), *old(ledger), voter@, proposal_id, now) is None,
        r matches Err(e) ==> vote_check(*old(registry), *old(ledger), voter@, proposal_id, now) == Some(e)
            && *final(registry) == *old(registry) && *final(ledger) == *old(ledger),
        r is Ok ==> vote_applied(*old(registry), *old(ledger), voter@, proposal_id, *final(registry), *final(ledger)),
{
    let i = match registry.find(voter) {
        Some(i) => i,
        None => return Err(VoteError::VoterNotRegistered),
    };
    let p = proposal_id as usize;
    if p >= ledger.proposals.len() {
        return Err(VoteError::ProposalNotFound);
    }
    if !ledger.proposals[p].is_open(now) {
        return Err(VoteError::DeadlinePassed);
    }
    if voted_on(&registry.voters[i], proposal_id) {
        return Err(VoteError::AlreadyVoted);
    }
    assert(!registry.has_voted(voter@, proposal_id)) by {
        if registry.has_voted(voter@, proposal_id) {
            let k = choose|k: int|
                0 <= k < registry.voters@.len() && (#[trigger] registry.voters@[k]).voter_id@ == voter@
                    && registry.voters@[k].proposal_voted@.contains(proposal_id);
            if k != i as int {
                let ii = i as int;
                if k < ii {
                    assert(registry.voters@[k].voter_id@ != registry.voters@[ii].voter_id@);
                } else {
                    assert(registry.voters@[ii].voter_id@ != registry.voters@[k].voter_id@);
                }
            }
        }
    }
    let votes = ledger.proposals[p].number_of_votes;
    if votes == u8::MAX {
        return Err(VoteError::ArithmeticOverflow);
    }
    let ghost r0 = registry.voters@;
    let ghost l0 = ledger.proposals@;
    ledger.proposals[p].number_of_votes = votes + 1;
    registry.voters[i].proposal_voted.push(proposal_id);
    assert(registry.voters@[i as int].proposal_voted@ =~= r0[i as int].proposal_voted@.push(proposal_id));
    assert(registry.voters@[i as int].proposal_voted@.no_duplicates());
    Ok(())
}

/// Registration is once per identity: after a successful registration the
/// identity is registered, so registering it again fails with
/// `AlreadyRegistered`, and its fresh record lists no votes.
pub proof fn lemma_register_once(before: VoterRegistry, after: VoterRegistry, id: Seq<u8>)
    requires
        before.wf(),
        !before.registered(id),
        voter_added(before, after, id),
    ensures
        after.registered(id),
        forall|p: u8| !after.has_voted(id, p),
{
    let n = before.voters@.len() as int;
    assert(after.voters@[n].voter_id@ == id);
    assert forall|p: u8| !after.has_voted(id, p) by {
        if after.has_voted(id, p) {
            let k = choose|k: int|
                0 <= k < after.voters@.len() && (#[trigger] after.voters@[k]).voter_id@ == id
                    && after.voters@[k].proposal_voted@.contains(p);
            if k < n {
                assert(after.voters@[k] == after.voters@.subrange(0, n)[k]);
                assert(before.voters@[k].voter_id@ == id);
            }
        }
    }
}

/// A proposal whose deadline has been reached accepts no vote from a
/// registered voter: the vote fails with `DeadlinePassed` (and so, by the
/// contract of `cast_vote`, its count stays as it was).
pub proof fn lemma_closed_proposal_refuses(
    registry: VoterRegistry,
    ledger: ProposalLedger,
    voter: Seq<u8>,
    proposal_id: u8,
    now: i64,
)
    requires
        registry.registered(voter),
        proposal_id < ledger.proposals@.len(),
        now >= ledger.proposals@[proposal_id as int].deadline,
    ensures
        vote_check(registry, ledger, voter, proposal_id, now) == Some(VoteError::DeadlinePassed),
{
}

/// Votes by two different registered voters on the same open proposal both
/// succeed, one after the other in either order, and raise its count by
/// exactly two.
pub proof fn lemma_two_voters_both_count(
    r0: VoterRegistry,
    l0: ProposalLedger,
    v1: Seq<u8>,
    v2: Seq<u8>,
    proposal_id: u8,
    now: i64,
    r1: VoterRegistry,
    l1: ProposalLedger,
    r2: VoterRegistry,
    l2: ProposalLedger,
)
    requires
        r0.wf(),
        v1 != v2,
        r0.registered(v1),
        r0.registered(v2),
        !r0.has_voted(v1, proposal_id),
        !r0.has_voted(v2, proposal_id),
        proposal_id < l0.proposals@.len(),
        now < l0.proposals@[proposal_id as int].deadline,
        l0.proposals@[proposal_id as int].number_of_votes + 2 <= u8::MAX,
        vote_applied(r0, l0, v1, proposal_id, r1, l1),
        vote_applied(r1, l1, v2, proposal_id, r2, l2),
    ensures
        vote_check(r0, l0, v1, proposal_id, now) is None,
        vote_check(r1, l1, v2, proposal_id, now) is None,
        l2.proposals@[proposal_id as int].number_of_votes == l0.proposals@[proposal_id as int].number_of_votes
            + 2,
{
    let i1 = r0.index_of(v1);
    let j = r0.index_of(v2);
    assert(0 <= j < r0.voters@.len() && r0.voters@[j].voter_id@ == v2);
    assert(0 <= i1 < r0.voters@.len() && r0.voters@[i1].voter_id@ == v1);
    assert(j != i1);
    assert(r1.voters@[j] == r0.voters@[j]);
    assert(r1.registered(v2));
    assert(!r1.has_voted(v2, proposal_id)) by {
        if r1.has_voted(v2, proposal_id) {
            let k = choose|k: int|
                0 <= k < r1.voters@.len() && (#[trigger] r1.voters@[k]).voter_id@ == v2
                    && r1.voters@[k].proposal_voted@.contains(proposal_id);
            if k == i1 {
                assert(r1.voters@[k].voter_id == r0.voters@[i1].voter_id);
            } else {
                assert(r1.voters@[k] == r0.voters@[k]);
                assert(r0.has_voted(v2, proposal_id));
            }
        }
    }
}

/// One vote per voter and proposal: after a voter's vote has been counted,
/// a second vote by the same voter on the same open proposal fails with
/// `AlreadyVoted`, so the count has risen by one in all.
pub proof fn lemma_vote_once(
    r0: VoterRegistry,
    l0: ProposalLedger,
    voter: Seq<u8>,
    proposal_id: u8,
    now: i64,
    r1: VoterRegistry,
    l1: ProposalLedger,
)
    requires
        r0.wf(),
        r0.registered(voter),
        proposal_id < l0.proposals@.len(),
        vote_applied(r0, l0, voter, proposal_id, r1, l1),
        now < l0.proposals@[proposal_id as int].deadline,
    ensures
        vote_check(r1, l1, voter, proposal_id, now) == Some(VoteError::AlreadyVoted),
        l1.proposals@[proposal_id as int].number_of_votes == l0.proposals@[proposal_id as int].number_of_votes
            + 1,
{
    let i = r0.index_of(voter);
    assert(0 <= i < r0.voters@.len() && r0.voters@[i].voter_id@ == voter);
    assert(r1.voters@[i].proposal_voted@.last() == proposal_id);
    assert(r1.voters@[i].proposal_voted@.contains(proposal_id));
    assert(r1.registered(voter));
    assert(r1.has_voted(voter, proposal_id));
}

} // verus!
