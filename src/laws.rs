use vstd::prelude::*;
use crate::account::{AccountId, account_views};
use crate::dao::{DaoContract, outcome};
use crate::dao_types::{DaoError, ProjectId, ProposalId, TaskId, TaskStatus, Timestamp, Vote, VoteStatus, priority_of};
use crate::daomanager::{DaoManagerContract, DaoManagerError};

verus! {

broadcast use vstd::std_specs::hash::group_hash_axioms;

proof fn lemma_pushed_account_is_listed(s: Seq<AccountId>, a: AccountId)
    ensures
        account_views(s.push(a)).contains(a@),
{
    assert(account_views(s.push(a))[s.len() as int] == a@);
}

/// Adding the same account twice as the owner: the second call fails with
/// `MemberAlreadyExists` and leaves the member count as it was.
pub proof fn add_member_twice(
    s0: DaoContract,
    s1: DaoContract,
    s2: DaoContract,
    caller: AccountId,
    a: AccountId,
    r1: Result<(), DaoError>,
    r2: Result<(), DaoError>,
)
    requires
        caller@ == s0.owner@,
        DaoContract::add_member_post(s0, s1, caller, a, r1),
        DaoContract::add_member_post(s1, s2, caller, a, r2),
    ensures
        r2 == Err::<(), DaoError>(DaoError::MemberAlreadyExists),
        s2.dao.member_id == s1.dao.member_id,
{
    if r1 is Ok {
        lemma_pushed_account_is_listed(s0.dao.members@, a);
    }
}

/// A new proposal's vote is in progress with no votes, from the creation
/// time `now` to `now + duration` (saturating); a member who has not voted
/// on it and votes after that end gets `VotingPeriodExpired`.
pub proof fn new_proposal_vote(
    s0: DaoContract,
    s1: DaoContract,
    s2: DaoContract,
    caller: AccountId,
    now: Timestamp,
    description: String,
    duration: Timestamp,
    voter: AccountId,
    later: Timestamp,
    vote_cast: bool,
    r1: Result<(), DaoError>,
    r2: Result<(), DaoError>,
)
    requires
        DaoContract::create_proposal_post(s0, s1, caller, now, description, duration, r1),
        r1 is Ok,
        s1.is_member(voter@),
        !s1.dao.accounts.voted(voter@).contains(s1.dao.proposal_id),
        later > now.saturating_add(duration),
        DaoContract::vote_post(s1, s2, voter, later, s1.dao.proposal_id, vote_cast, r2),
    ensures
        s1.vote_of(s1.dao.proposal_id) == (Vote {
            yes_votes: 0,
            no_votes: 0,
            start: now,
            end: now.saturating_add(duration),
            vote_status: VoteStatus::InProgress,
        }),
        r2 == Err::<(), DaoError>(DaoError::VotingPeriodExpired),
{
}

/// A member who has voted on a proposal cannot vote on it again.
pub proof fn one_vote_per_member(
    s0: DaoContract,
    s1: DaoContract,
    s2: DaoContract,
    member: AccountId,
    t1: Timestamp,
    t2: Timestamp,
    proposal_id: ProposalId,
    c1: bool,
    c2: bool,
    r1: Result<(), DaoError>,
    r2: Result<(), DaoError>,
)
    requires
        DaoContract::vote_post(s0, s1, member, t1, proposal_id, c1, r1),
        r1 is Ok,
        DaoContract::vote_post(s1, s2, member, t2, proposal_id, c2, r2),
    ensures
        r2 == Err::<(), DaoError>(DaoError::MemberHasAlreadyVoted),
{
    assert(s1.dao.members == s0.dao.members);
    assert(s1.dao.accounts.voted(member@).contains(proposal_id)) by {
        assert(s1.dao.accounts.voted(member@)[s0.dao.accounts.voted(member@).len() as int]
            == proposal_id);
    }
}

/// A successful vote raises the tally of its proposal, as the queries read
/// it, by exactly one (below the counters' maximum).
pub proof fn vote_counts_one(
    s0: DaoContract,
    s1: DaoContract,
    member: AccountId,
    now: Timestamp,
    proposal_id: ProposalId,
    vote_cast: bool,
    r: Result<(), DaoError>,
)
    requires
        DaoContract::vote_post(s0, s1, member, now, proposal_id, vote_cast, r),
        r is Ok,
        1 <= proposal_id <= s0.dao.proposal_id,
        s0.dao.vote@[proposal_id].yes_votes < u32::MAX,
        s0.dao.vote@[proposal_id].no_votes < u32::MAX,
    ensures
        s1.vote_of(proposal_id).yes_votes + s1.vote_of(proposal_id).no_votes == s0.vote_of(
            proposal_id,
        ).yes_votes + s0.vote_of(proposal_id).no_votes + 1,
{
    assert(s1.dao.proposal_id == s0.dao.proposal_id);
}

/// Closing a vote before its end fails with `VoteOngoing`.
pub proof fn finalize_before_end(
    s0: DaoContract,
    s1: DaoContract,
    member: AccountId,
    now: Timestamp,
    proposal_id: ProposalId,
    r: Result<(), DaoError>,
)
    requires
        DaoContract::finalize_vote_post(s0, s1, member, now, proposal_id, r),
        s0.is_member(member@),
        s0.dao.vote@.contains_key(proposal_id),
        s0.dao.vote@[proposal_id].vote_status == VoteStatus::InProgress,
        now < s0.dao.vote@[proposal_id].end,
    ensures
        r == Err::<(), DaoError>(DaoError::VoteOngoing),
        s1 == s0,
{
}

/// A vote that was closed cannot be closed again: `VoteNotAvailable`.
pub proof fn finalize_twice(
    s0: DaoContract,
    s1: DaoContract,
    s2: DaoContract,
    m1: AccountId,
    m2: AccountId,
    t1: Timestamp,
    t2: Timestamp,
    proposal_id: ProposalId,
    r1: Result<(), DaoError>,
    r2: Result<(), DaoError>,
)
    requires
        DaoContract::finalize_vote_post(s0, s1, m1, t1, proposal_id, r1),
        r1 is Ok,
        DaoContract::finalize_vote_post(s1, s2, m2, t2, proposal_id, r2),
        s1.is_member(m2@),
    ensures
        r2 == Err::<(), DaoError>(DaoError::VoteNotAvailable),
{
    let v = s0.dao.vote@[proposal_id];
    assert(outcome(v.yes_votes, v.no_votes, s0.dao.quorum) != VoteStatus::InProgress);
}

/// With fewer votes than the quorum, a closed vote has failed, whatever
/// the split between yes and no.
pub proof fn below_quorum_fails(
    s0: DaoContract,
    s1: DaoContract,
    member: AccountId,
    now: Timestamp,
    proposal_id: ProposalId,
    r: Result<(), DaoError>,
)
    requires
        DaoContract::finalize_vote_post(s0, s1, member, now, proposal_id, r),
        r is Ok,
        s0.dao.vote@[proposal_id].yes_votes + s0.dao.vote@[proposal_id].no_votes < s0.dao.quorum,
    ensures
        s1.dao.vote@[proposal_id].vote_status == VoteStatus::Failed,
{
}

/// The assignee may hand in a task that was never started: it goes from
/// `ToDo` straight to `UnderReview`.
pub proof fn submit_without_start(
    s0: DaoContract,
    s1: DaoContract,
    caller: AccountId,
    task_id: TaskId,
    r: Result<(), DaoError>,
)
    requires
        DaoContract::submit_task_post(s0, s1, caller, task_id, r),
        s0.dao.task@.contains_key(task_id),
        s0.dao.task@[task_id].status == TaskStatus::ToDo,
        s0.dao.task@[task_id].assignee@ == caller@,
    ensures
        r is Ok,
        s1.dao.task@[task_id].status == TaskStatus::UnderReview,
{
}

/// Only the task's assessing account can complete it; anyone else gets
/// `IneligibleCaller` and changes nothing.
pub proof fn review_by_other_fails(
    s0: DaoContract,
    s1: DaoContract,
    caller: AccountId,
    task_id: TaskId,
    review: String,
    awarded_points: u32,
    r: Result<(), DaoError>,
)
    requires
        DaoContract::review_task_post(s0, s1, caller, task_id, review, awarded_points, r),
        s0.dao.task@.contains_key(task_id),
        s0.dao.task@[task_id].reviewer@ != caller@,
    ensures
        r == Err::<(), DaoError>(DaoError::IneligibleCaller),
        s1 == s0,
{
}

/// Completing a task adds exactly the awarded points to its assignee,
/// saturating at `u32::MAX`, marks it done and touches no other account.
pub proof fn review_awards_points(
    s0: DaoContract,
    s1: DaoContract,
    caller: AccountId,
    task_id: TaskId,
    review: String,
    awarded_points: u32,
    r: Result<(), DaoError>,
)
    requires
        DaoContract::review_task_post(s0, s1, caller, task_id, review, awarded_points, r),
        r is Ok,
    ensures
        ({
            let a = s0.dao.task@[task_id].assignee@;
            &&& s1.dao.accounts.points(a) == s0.dao.accounts.points(a).saturating_add(awarded_points)
            &&& forall|b: Seq<u8>| b != a ==> #[trigger] s1.dao.accounts.points(b) == s0.dao.accounts.points(b)
        }),
        s1.dao.task@[task_id].status == TaskStatus::Done,
{
    let a = s0.dao.task@[task_id].assignee@;
    assert forall|b: Seq<u8>| b != a implies #[trigger] s1.dao.accounts.points(b)
        == s0.dao.accounts.points(b) by {
        assert(s1.dao.accounts.member_id(b) == s0.dao.accounts.member_id(b));
    }
}

/// A project task needs the caller, the assignee and the assessing account to be
/// members of the project; when they are and the priority is valid, the
/// task is created and listed under both the project and the assignee.
pub proof fn project_task_needs_members(
    s0: DaoContract,
    s1: DaoContract,
    caller: AccountId,
    now: Timestamp,
    project_id: ProjectId,
    description: String,
    assignee: AccountId,
    reviewer: AccountId,
    duration: Timestamp,
    points: u32,
    priority: u8,
    r: Result<(), DaoError>,
)
    requires
        DaoContract::create_project_task_post(
            s0,
            s1,
            caller,
            now,
            project_id,
            description,
            assignee,
            reviewer,
            duration,
            points,
            priority,
            r,
        ),
    ensures
        !s0.in_project(project_id, caller@) || !s0.in_project(project_id, assignee@)
            || !s0.in_project(project_id, reviewer@) ==> r == Err::<(), DaoError>(
            DaoError::NotAProjectMember,
        ),
        s0.in_project(project_id, caller@) && s0.in_project(project_id, assignee@)
            && s0.in_project(project_id, reviewer@) && priority_of(priority) is Some ==> {
            &&& r is Ok
            &&& s1.project_task_list(project_id) == s0.project_task_list(project_id).push(
                s1.dao.task_id,
            )
            &&& s1.dao.accounts.task_ids(assignee@) == s0.dao.accounts.task_ids(assignee@).push(
                s1.dao.task_id,
            )
            &&& s1.dao.task@.contains_key(s1.dao.task_id)
        },
{
}

/// The registry refuses a DAO whose token is not the registry's with
/// `WrongToken`.
pub proof fn add_dao_wrong_token(
    s0: DaoManagerContract,
    s1: DaoManagerContract,
    caller: AccountId,
    dao: AccountId,
    dao_token: AccountId,
    r: Result<(), DaoManagerError>,
)
    requires
        DaoManagerContract::add_dao_post(s0, s1, caller, dao, dao_token, r),
        s0.is_member_spec(caller@),
        dao_token@ != s0.data.token@,
    ensures
        r == Err::<(), DaoManagerError>(DaoManagerError::WrongToken),
        s1 == s0,
{
}

/// A DAO that was added cannot be added again: `DAOExists`.
pub proof fn add_dao_twice(
    s0: DaoManagerContract,
    s1: DaoManagerContract,
    s2: DaoManagerContract,
    caller: AccountId,
    dao: AccountId,
    dao_token: AccountId,
    r1: Result<(), DaoManagerError>,
    r2: Result<(), DaoManagerError>,
)
    requires
        DaoManagerContract::add_dao_post(s0, s1, caller, dao, dao_token, r1),
        r1 is Ok,
        DaoManagerContract::add_dao_post(s1, s2, caller, dao, dao_token, r2),
    ensures
        r2 == Err::<(), DaoManagerError>(DaoManagerError::DAOExists),
{
    lemma_pushed_account_is_listed(s0.data.daos@, dao);
}

} // verus!
