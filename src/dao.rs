use vstd::prelude::*;
use std::collections::HashMap;
use crate::account::{AccountId, account_views, contains_account, copy_accounts, copy_ids};
use crate::dao_types::{
    Balance, DaoError, OwnableError, Project, ProjectId, Proposal, ProposalId, Task, TaskId,
    TaskPriority, TaskStatus, Timestamp, Vote, VoteStatus, priority_of, task_priority,
};
use crate::ledger::Ledger;

verus! {

broadcast use vstd::std_specs::hash::group_hash_axioms;

/// The state of one DAO. Proposals, votes, tasks and projects are keyed by
/// their ids; everything kept per account is in `accounts`.
#[derive(Debug)]
pub struct Data {
    pub proposal: HashMap<ProposalId, Proposal>,
    pub vote: HashMap<ProposalId, Vote>,
    pub task: HashMap<TaskId, Task>,
    pub project: HashMap<ProjectId, Project>,
    pub members: Vec<AccountId>,
    pub accounts: Ledger,
    pub project_tasks: HashMap<ProjectId, Vec<TaskId>>,
    pub project_members: HashMap<ProjectId, Vec<AccountId>>,
    pub token: AccountId,
    pub quorum: u32,
    pub metadata: Vec<u8>,
    pub proposal_id: u32,
    pub member_id: u32,
    pub project_id: u32,
    pub task_id: u32,
}

impl Default for Data {
    /// An empty DAO: no members, no entities, the zero account as token.
    fn default() -> (r: Data)
        ensures
            r.proposal@.is_empty(),
            r.vote@.is_empty(),
            r.task@.is_empty(),
            r.project@.is_empty(),
            r.members@.len() == 0,
            forall|a: Seq<u8>| #[trigger] r.accounts.is_blank(a),
            r.project_tasks@.is_empty(),
            r.project_members@.is_empty(),
            r.token@ == Seq::new(32, |i: int| 0u8),
            r.quorum == 0,
            r.metadata@.len() == 0,
            r.proposal_id == 0,
            r.member_id == 0,
            r.project_id == 0,
            r.task_id == 0,
    {
        Data {
            proposal: HashMap::new(),
            vote: HashMap::new(),
            task: HashMap::new(),
            project: HashMap::new(),
            members: Vec::new(),
            accounts: Ledger::new(),
            project_tasks: HashMap::new(),
            project_members: HashMap::new(),
            token: AccountId::zero(),
            quorum: 0,
            metadata: Vec::new(),
            proposal_id: 0,
            member_id: 0,
            project_id: 0,
            task_id: 0,
        }
    }
}

#[derive(Clone, Copy, Debug, PartialEq, Eq)]
pub struct MemberAdded {
    pub member: AccountId,
    pub member_id: u32,
}

#[derive(Clone, Copy, Debug, PartialEq, Eq)]
pub struct ProjectCreated {
    pub creator: AccountId,
    pub project_id: u32,
}

#[derive(Clone, Copy, Debug, PartialEq, Eq)]
pub struct ProposalCreated {
    pub creator: AccountId,
    pub proposal_id: u32,
}

#[derive(Clone, Copy, Debug, PartialEq, Eq)]
pub struct TaskCreated {
    pub creator: AccountId,
    pub task_id: u32,
}

/// An event of the DAO, for outside observers.
#[derive(Clone, Copy, Debug, PartialEq, Eq)]
pub enum DaoEvent {
    MemberAdded(MemberAdded),
    ProjectCreated(ProjectCreated),
    ProposalCreated(ProposalCreated),
    TaskCreated(TaskCreated),
}

/// One DAO: its owner, its state, and the events emitted and not yet taken.
///
/// Every operation takes the calling account, and where it reads the clock
/// the current block time, from the caller of the library.
#[derive(Debug)]
pub struct DaoContract {
    pub owner: AccountId,
    pub dao: Data,
    pub events: Vec<DaoEvent>,
}

/// The task that `create_task` stores.
pub open spec fn new_task(
    t: Task,
    description: Seq<char>,
    assignee: AccountId,
    reviewer: AccountId,
    owner: AccountId,
    deadline: Timestamp,
    points: u32,
    priority: TaskPriority,
) -> bool {
    &&& t.description@ == description
    &&& t.assignee == assignee
    &&& t.reviewer == reviewer
    &&& t.owner == owner
    &&& t.deadline == deadline
    &&& t.points == points
    &&& t.priority == priority
    &&& t.status == TaskStatus::ToDo
    &&& t.review@.len() == 0
}

/// The status that `finalize_vote` gives a vote: failed below the quorum,
/// else passed exactly when the yes votes outnumber the no votes.
pub open spec fn outcome(yes: u32, no: u32, quorum: u32) -> VoteStatus {
    if yes + no < quorum {
        VoteStatus::Failed
    } else if yes > no {
        VoteStatus::Passed
    } else {
        VoteStatus::Failed
    }
}

impl DaoContract {
    pub open spec fn is_member(&self, a: Seq<u8>) -> bool {
        account_views(self.dao.members@).contains(a)
    }

    /// The members of project `id`; empty where none has joined.
    pub open spec fn project_member_list(&self, id: ProjectId) -> Seq<AccountId> {
        if self.dao.project_members@.contains_key(id) {
            self.dao.project_members@[id]@
        } else {
            Seq::empty()
        }
    }

    pub open spec fn in_project(&self, id: ProjectId, a: Seq<u8>) -> bool {
        account_views(self.project_member_list(id)).contains(a)
    }

    /// The tasks of project `id`.
    pub open spec fn project_task_list(&self, id: ProjectId) -> Seq<TaskId> {
        if self.dao.project_tasks@.contains_key(id) {
            self.dao.project_tasks@[id]@
        } else {
            Seq::empty()
        }
    }

    /// `self` becomes `new` by admitting `a` as a member.
    pub open spec fn admits(&self, new: &DaoContract, a: AccountId) -> bool {
        let id = self.dao.member_id.saturating_add(1);
        &&& new.dao.member_id == id
        &&& new.dao.members@ == self.dao.members@.push(a)
        &&& new.dao.accounts.member_id(a@) == id
        &&& new.dao.accounts.points(a@) == self.dao.accounts.points(a@)
        &&& new.dao.accounts.task_ids(a@) == self.dao.accounts.task_ids(a@)
        &&& new.dao.accounts.proposal_ids(a@) == self.dao.accounts.proposal_ids(a@)
        &&& new.dao.accounts.voted(a@) == self.dao.accounts.voted(a@)
        &&& self.dao.accounts.same_except(&new.dao.accounts, a@)
        &&& new.dao == (Data {
            members: new.dao.members,
            accounts: new.dao.accounts,
            member_id: new.dao.member_id,
            ..self.dao
        })
        &&& new.owner == self.owner
        &&& new.events@ == self.events@.push(
            DaoEvent::MemberAdded(MemberAdded { member: a, member_id: id }),
        )
    }

    /// A DAO with `token` as its eligibility token; `caller` becomes its
    /// owner and its first member, with member id 1.
    pub fn new(caller: AccountId, token: AccountId, metadata: Vec<u8>) -> (r: DaoContract)
        ensures
            r.owner == caller,
            r.dao.token == token,
            r.dao.metadata@ == metadata@,
            r.dao.quorum == 0,
            r.dao.members@ == seq![caller],
            r.dao.member_id == 1,
            r.dao.accounts.member_id(caller@) == 1,
            r.dao.proposal_id == 0,
            r.dao.project_id == 0,
            r.dao.task_id == 0,
            r.dao.proposal@.is_empty(),
            r.dao.vote@.is_empty(),
            r.dao.task@.is_empty(),
            r.dao.project@.is_empty(),
            r.dao.project_tasks@.is_empty(),
            r.dao.project_members@.is_empty(),
            r.dao.accounts.points(caller@) == 0,
            r.dao.accounts.task_ids(caller@) == Seq::<u32>::empty(),
            r.dao.accounts.proposal_ids(caller@) == Seq::<u32>::empty(),
            r.dao.accounts.voted(caller@) == Seq::<u32>::empty(),
            forall|a: Seq<u8>| a != caller@ ==> #[trigger] r.dao.accounts.is_blank(a),
            r.events@.len() == 0,
    {
        let mut dao = Data::default();
        assert(dao.accounts.is_blank(caller@));
        dao.token = token;
        dao.metadata = metadata;
        dao.members.push(caller);
        dao.member_id = 1;
        let ghost before = dao.accounts;
        dao.accounts.set_member_id(&caller, 1);
        proof {
            assert(dao.members@ =~= seq![caller]);
            assert forall|a: Seq<u8>| a != caller@ implies #[trigger] dao.accounts.is_blank(a) by {
                assert(before.is_blank(a));
            }
        }
        DaoContract { owner: caller, dao, events: Vec::new() }
    }

    /// Whether a token balance makes its holder eligible for membership.
    pub fn is_eligible(balance: Balance) -> (r: bool)
        ensures
            r == (balance > 0),
    {
        balance > 0
    }

    fn enroll(&mut self, a: AccountId)
        ensures
            old(self).admits(&*final(self), a),
    {
        let member_id = self.dao.member_id.saturating_add(1);
        self.dao.member_id = member_id;
        self.dao.members.push(a);
        self.dao.accounts.set_member_id(&a, member_id);
        self.emit_member_added_event(a, member_id);
    }

    pub fn emit_member_added_event(&mut self, member: AccountId, member_id: u32)
        ensures
            final(self).events@ == old(self).events@.push(
                DaoEvent::MemberAdded(MemberAdded { member, member_id }),
            ),
            final(self).owner == old(self).owner,
            final(self).dao == old(self).dao,
    {
        self.events.push(DaoEvent::MemberAdded(MemberAdded { member, member_id }));
    }

    pub fn emit_project_created_event(&mut self, creator: AccountId, project_id: u32)
        ensures
            final(self).events@ == old(self).events@.push(
                DaoEvent::ProjectCreated(ProjectCreated { creator, project_id }),
            ),
            final(self).owner == old(self).owner,
            final(self).dao == old(self).dao,
    {
        self.events.push(DaoEvent::ProjectCreated(ProjectCreated { creator, project_id }));
    }

    pub fn emit_proposal_created_event(&mut self, creator: AccountId, proposal_id: u32)
        ensures
            final(self).events@ == old(self).events@.push(
                DaoEvent::ProposalCreated(ProposalCreated { creator, proposal_id }),
            ),
            final(self).owner == old(self).owner,
            final(self).dao == old(self).dao,
    {
        self.events.push(DaoEvent::ProposalCreated(ProposalCreated { creator, proposal_id }));
    }

    pub fn emit_task_created_event(&mut self, creator: AccountId, task_id: u32)
        ensures
            final(self).events@ == old(self).events@.push(
                DaoEvent::TaskCreated(TaskCreated { creator, task_id }),
            ),
            final(self).owner == old(self).owner,
            final(self).dao == old(self).dao,
    {
        self.events.push(DaoEvent::TaskCreated(TaskCreated { creator, task_id }));
    }

    /// Hands out the events emitted so far and forgets them.
    pub fn take_events(&mut self) -> (r: Vec<DaoEvent>)
        ensures
            r@ == old(self).events@,
            final(self).events@.len() == 0,
            final(self).owner == old(self).owner,
            final(self).dao == old(self).dao,
    {
        let mut out: Vec<DaoEvent> = Vec::new();
        std::mem::swap(&mut out, &mut self.events);
        out
    }

    /// What `add_member` does, from `pre` to `post`, with result `r`.
    pub open spec fn add_member_post(
        pre: DaoContract,
        post: DaoContract,
        caller: AccountId,
        address: AccountId,
        r: Result<(), DaoError>,
    ) -> bool {
        &&& caller@ != pre.owner@ ==> r == Err::<(), DaoError>(
            DaoError::OwnableError(OwnableError::CallerIsNotOwner),
        )
        &&& caller@ == pre.owner@ && pre.is_member(address@) ==> r == Err::<(), DaoError>(
            DaoError::MemberAlreadyExists,
        )
        &&& r is Ok <==> caller@ == pre.owner@ && !pre.is_member(address@)
        &&& r is Ok ==> pre.admits(&post, address)
        &&& r is Err ==> post == pre
    }

    /// The owner admits `address` as a member.
    pub fn add_member(&mut self, caller: AccountId, address: AccountId) -> (r: Result<(), DaoError>)
        ensures
            Self::add_member_post(*old(self), *final(self), caller, address, r),
    {
        if !(caller == self.owner) {
            return Err(DaoError::from(OwnableError::CallerIsNotOwner));
        }
        if contains_account(&self.dao.members, &address) {
            return Err(DaoError::MemberAlreadyExists);
        }
        self.enroll(address);
        Ok(())
    }

    /// What `join_dao` does, from `pre` to `post`, with result `r`.
    pub open spec fn join_dao_post(
        pre: DaoContract,
        post: DaoContract,
        caller: AccountId,
        balance: Balance,
        r: Result<(), DaoError>,
    ) -> bool {
        &&& pre.is_member(caller@) ==> r == Err::<(), DaoError>(DaoError::MemberAlreadyExists)
        &&& !pre.is_member(caller@) && balance == 0 ==> r == Err::<(), DaoError>(
            DaoError::NotEligibleForMembership,
        )
        &&& r is Ok <==> !pre.is_member(caller@) && balance > 0
        &&& r is Ok ==> pre.admits(&post, caller)
        &&& r is Err ==> post == pre
    }

    /// `caller` joins by itself; `balance` is what the eligibility token
    /// reports that `caller` holds.
    pub fn join_dao(&mut self, caller: AccountId, balance: Balance) -> (r: Result<(), DaoError>)
        ensures
            Self::join_dao_post(*old(self), *final(self), caller, balance, r),
    {
        if contains_account(&self.dao.members, &caller) {
            return Err(DaoError::MemberAlreadyExists);
        }
        if !Self::is_eligible(balance) {
            return Err(DaoError::NotEligibleForMembership);
        }
        self.enroll(caller);
        Ok(())
    }

    /// What `create_proposal` does, from `pre` to `post`, with result `r`.
    pub open spec fn create_proposal_post(
        pre: DaoContract,
        post: DaoContract,
        caller: AccountId,
        now: Timestamp,
        description: String,
        duration: Timestamp,
        r: Result<(), DaoError>,
    ) -> bool {
        &&& r is Ok <==> pre.is_member(caller@)
        &&& r is Err ==> r == Err::<(), DaoError>(DaoError::MemberDoesNotExist) && post
            == pre
        &&& r is Ok ==> {
            let id = pre.dao.proposal_id.saturating_add(1);
            &&& post.dao.proposal_id == id
            &&& post.dao.proposal@ == pre.dao.proposal@.insert(
                id,
                Proposal { creator: caller, description },
            )
            &&& post.dao.vote@ == pre.dao.vote@.insert(
                id,
                Vote {
                    yes_votes: 0,
                    no_votes: 0,
                    start: now,
                    end: now.saturating_add(duration),
                    vote_status: VoteStatus::InProgress,
                },
            )
            &&& post.dao.accounts.proposal_ids(caller@) == pre.dao.accounts.proposal_ids(caller@).push(id)
            &&& post.dao.accounts.member_id(caller@) == pre.dao.accounts.member_id(caller@)
            &&& post.dao.accounts.points(caller@) == pre.dao.accounts.points(caller@)
            &&& post.dao.accounts.task_ids(caller@) == pre.dao.accounts.task_ids(caller@)
            &&& post.dao.accounts.voted(caller@) == pre.dao.accounts.voted(caller@)
            &&& pre.dao.accounts.same_except(&post.dao.accounts, caller@)
            &&& post.dao == (Data {
                    proposal: post.dao.proposal,
                    vote: post.dao.vote,
                    accounts: post.dao.accounts,
                    proposal_id: post.dao.proposal_id,
                    ..pre.dao
            })
            &&& post.owner == pre.owner
            &&& post.events@ == pre.events@.push(
                DaoEvent::ProposalCreated(ProposalCreated { creator: caller, proposal_id: id }),
            )
        }
    }

    /// A member opens proposal number `proposal_id + 1`, with a vote from
    /// `now` to `now + duration` (saturating).
    pub fn create_proposal(
        &mut self,
        caller: AccountId,
        now: Timestamp,
        description: String,
        duration: Timestamp,
    ) -> (r: Result<(), DaoError>)
        ensures
            Self::create_proposal_post(*old(self), *final(self), caller, now, description, duration, r),
    {
        if !contains_account(&self.dao.members, &caller) {
            return Err(DaoError::MemberDoesNotExist);
        }
        let vote = Vote {
            yes_votes: 0,
            no_votes: 0,
            start: now,
            end: now.saturating_add(duration),
            vote_status: VoteStatus::InProgress,
        };
        let proposal_id = self.dao.proposal_id.saturating_add(1);
        self.dao.proposal.insert(proposal_id, Proposal { creator: caller, description });
        self.dao.accounts.push_proposal_id(&caller, proposal_id);
        self.dao.vote.insert(proposal_id, vote);
        self.dao.proposal_id = proposal_id;
        self.emit_proposal_created_event(caller, proposal_id);
        Ok(())
    }

    /// What `vote` does, from `pre` to `post`, with result `r`.
    pub open spec fn vote_post(
        pre: DaoContract,
        post: DaoContract,
        caller: AccountId,
        now: Timestamp,
        proposal_id: ProposalId,
        vote_cast: bool,
        r: Result<(), DaoError>,
    ) -> bool {
        &&& !pre.is_member(caller@) ==> r == Err::<(), DaoError>(DaoError::MemberDoesNotExist)
        &&& pre.is_member(caller@) && !pre.dao.vote@.contains_key(proposal_id) ==> r
            == Err::<(), DaoError>(DaoError::ProposalDoesNotExist)
        &&& pre.is_member(caller@) && pre.dao.vote@.contains_key(proposal_id)
            && pre.dao.accounts.voted(caller@).contains(proposal_id) ==> r == Err::<(), DaoError>(DaoError::MemberHasAlreadyVoted)
        &&& pre.is_member(caller@) && pre.dao.vote@.contains_key(proposal_id)
            && !pre.dao.accounts.voted(caller@).contains(proposal_id) && now > pre.dao.vote@[proposal_id].end ==> r == Err::<(), DaoError>(DaoError::VotingPeriodExpired)
        &&& r is Ok <==> {
            &&& pre.is_member(caller@)
            &&& pre.dao.vote@.contains_key(proposal_id)
            &&& !pre.dao.accounts.voted(caller@).contains(proposal_id)
            &&& now <= pre.dao.vote@[proposal_id].end
        }
        &&& r is Err ==> post == pre
        &&& r is Ok ==> {
            let v = pre.dao.vote@[proposal_id];
            &&& post.dao.vote@ == pre.dao.vote@.insert(
                proposal_id,
                if vote_cast {
                    Vote { yes_votes: v.yes_votes.saturating_add(1), ..v }
                } else {
                    Vote { no_votes: v.no_votes.saturating_add(1), ..v }
                },
            )
            &&& post.dao.accounts.voted(caller@) == pre.dao.accounts.voted(caller@).push(proposal_id)
            &&& post.dao.accounts.member_id(caller@) == pre.dao.accounts.member_id(caller@)
            &&& post.dao.accounts.points(caller@) == pre.dao.accounts.points(caller@)
            &&& post.dao.accounts.task_ids(caller@) == pre.dao.accounts.task_ids(caller@)
            &&& post.dao.accounts.proposal_ids(caller@) == pre.dao.accounts.proposal_ids(caller@)
            &&& pre.dao.accounts.same_except(&post.dao.accounts, caller@)
            &&& post.dao == (Data {
                    vote: post.dao.vote,
                    accounts: post.dao.accounts,
                    ..pre.dao
            })
            &&& post.owner == pre.owner
            &&& post.events == pre.events
        }
    }

    /// A member votes yes (`vote_cast`) or no on a proposal, once, until its end.
    pub fn vote(&mut self, caller: AccountId, now: Timestamp, proposal_id: ProposalId, vote_cast: bool) -> (r:
        Result<(), DaoError>)
        ensures
            Self::vote_post(*old(self), *final(self), caller, now, proposal_id, vote_cast, r),
    {
        if !contains_account(&self.dao.members, &caller) {
            return Err(DaoError::MemberDoesNotExist);
        }
        let mut vote = match self.dao.vote.get(&proposal_id) {
            Some(v) => *v,
            None => {
                return Err(DaoError::ProposalDoesNotExist);
            },
        };
        if self.dao.accounts.has_voted(&caller, proposal_id) {
            return Err(DaoError::MemberHasAlreadyVoted);
        }
        if now > vote.end {
            return Err(DaoError::VotingPeriodExpired);
        }
        if vote_cast {
            vote.yes_votes = vote.yes_votes.saturating_add(1);
        } else {
            vote.no_votes = vote.no_votes.saturating_add(1);
        }
        self.dao.vote.insert(proposal_id, vote);
        self.dao.accounts.push_vote(&caller, proposal_id);
        Ok(())
    }

    /// What `finalize_vote` does, from `pre` to `post`, with result `r`.
    pub open spec fn finalize_vote_post(
        pre: DaoContract,
        post: DaoContract,
        caller: AccountId,
        now: Timestamp,
        proposal_id: ProposalId,
        r: Result<(), DaoError>,
    ) -> bool {
        &&& !pre.is_member(caller@) ==> r == Err::<(), DaoError>(DaoError::MemberDoesNotExist)
        &&& pre.is_member(caller@) && !pre.dao.vote@.contains_key(proposal_id) ==> r
            == Err::<(), DaoError>(DaoError::ProposalDoesNotExist)
        &&& pre.is_member(caller@) && pre.dao.vote@.contains_key(proposal_id) && pre.dao.vote@[proposal_id].vote_status != VoteStatus::InProgress ==> r == Err::<(), DaoError>(DaoError::VoteNotAvailable)
        &&& pre.is_member(caller@) && pre.dao.vote@.contains_key(proposal_id) && pre.dao.vote@[proposal_id].vote_status == VoteStatus::InProgress && now < pre.dao.vote@[proposal_id].end ==> r == Err::<(), DaoError>(DaoError::VoteOngoing)
        &&& r is Ok <==> {
            &&& pre.is_member(caller@)
            &&& pre.dao.vote@.contains_key(proposal_id)
            &&& pre.dao.vote@[proposal_id].vote_status == VoteStatus::InProgress
            &&& now >= pre.dao.vote@[proposal_id].end
        }
        &&& r is Err ==> post == pre
        &&& r is Ok ==> {
            let v = pre.dao.vote@[proposal_id];
            &&& post.dao.vote@ == pre.dao.vote@.insert(
                proposal_id,
                Vote { vote_status: outcome(v.yes_votes, v.no_votes, pre.dao.quorum), ..v },
            )
            &&& post.dao == (Data { vote: post.dao.vote, ..pre.dao })
            &&& post.owner == pre.owner
            &&& post.events == pre.events
        }
    }

    /// A member closes the vote on a proposal once its end has come.
    pub fn finalize_vote(&mut self, caller: AccountId, now: Timestamp, proposal_id: ProposalId) -> (r:
        Result<(), DaoError>)
        ensures
            Self::finalize_vote_post(*old(self), *final(self), caller, now, proposal_id, r),
    {
        if !contains_account(&self.dao.members, &caller) {
            return Err(DaoError::MemberDoesNotExist);
        }
        let mut vote = match self.dao.vote.get(&proposal_id) {
            Some(v) => *v,
            None => {
                return Err(DaoError::ProposalDoesNotExist);
            },
        };
        if vote.vote_status != VoteStatus::InProgress {
            return Err(DaoError::VoteNotAvailable);
        }
        if now < vote.end {
            return Err(DaoError::VoteOngoing);
        }
        let total: u64 = vote.yes_votes as u64 + vote.no_votes as u64;
        if total < self.dao.quorum as u64 {
            vote.vote_status = VoteStatus::Failed;
        } else if vote.yes_votes > vote.no_votes {
            vote.vote_status = VoteStatus::Passed;
        } else {
            vote.vote_status = VoteStatus::Failed;
        }
        self.dao.vote.insert(proposal_id, vote);
        Ok(())
    }

    /// What `create_project` does, from `pre` to `post`, with result `r`.
    pub open spec fn create_project_post(
        pre: DaoContract,
        post: DaoContract,
        caller: AccountId,
        description: String,
        r: Result<(), DaoError>,
    ) -> bool {
        &&& r is Ok <==> pre.is_member(caller@)
        &&& r is Err ==> r == Err::<(), DaoError>(DaoError::MemberDoesNotExist) && post
            == pre
        &&& r is Ok ==> {
            let id = pre.dao.project_id.saturating_add(1);
            &&& post.dao.project_id == id
            &&& post.dao.project@ == pre.dao.project@.insert(
                id,
                Project { creator: caller, description },
            )
            &&& post.dao == (Data {
                    project: post.dao.project,
                    project_id: post.dao.project_id,
                    ..pre.dao
            })
            &&& post.owner == pre.owner
            &&& post.events@ == pre.events@.push(
                DaoEvent::ProjectCreated(ProjectCreated { creator: caller, project_id: id }),
            )
        }
    }

    /// A member opens project number `project_id + 1`.
    pub fn create_project(&mut self, caller: AccountId, description: String) -> (r: Result<(), DaoError>)
        ensures
            Self::create_project_post(*old(self), *final(self), caller, description, r),
    {
        if !contains_account(&self.dao.members, &caller) {
            return Err(DaoError::MemberDoesNotExist);
        }
        let project_id = self.dao.project_id.saturating_add(1);
        self.dao.project.insert(project_id, Project { creator: caller, description });
        self.dao.project_id = project_id;
        self.emit_project_created_event(caller, project_id);
        Ok(())
    }

    /// What `join_project` does, from `pre` to `post`, with result `r`.
    pub open spec fn join_project_post(
        pre: DaoContract,
        post: DaoContract,
        caller: AccountId,
        project_id: ProjectId,
        r: Result<(), DaoError>,
    ) -> bool {
        &&& !pre.is_member(caller@) ==> r == Err::<(), DaoError>(DaoError::MemberDoesNotExist)
        &&& pre.is_member(caller@) && pre.in_project(project_id, caller@) ==> r
            == Err::<(), DaoError>(DaoError::MemberExistsInProject)
        &&& r is Ok <==> pre.is_member(caller@) && !pre.in_project(project_id, caller@)
        &&& r is Err ==> post == pre
        &&& r is Ok ==> {
            &&& post.dao.project_members@ == pre.dao.project_members@.insert(
                project_id,
                post.dao.project_members@[project_id],
            )
            &&& post.project_member_list(project_id) == pre.project_member_list(
                project_id,
            ).push(caller)
            &&& post.dao == (Data {
                    project_members: post.dao.project_members,
                    ..pre.dao
            })
            &&& post.owner == pre.owner
            &&& post.events == pre.events
        }
    }

    /// A member joins a project, once.
    pub fn join_project(&mut self, caller: AccountId, project_id: ProjectId) -> (r: Result<(), DaoError>)
        ensures
            Self::join_project_post(*old(self), *final(self), caller, project_id, r),
    {
        if !contains_account(&self.dao.members, &caller) {
            return Err(DaoError::MemberDoesNotExist);
        }
        let mut members = match self.dao.project_members.get(&project_id) {
            Some(v) => copy_accounts(v),
            None => Vec::new(),
        };
        if contains_account(&members, &caller) {
            return Err(DaoError::MemberExistsInProject);
        }
        members.push(caller);
        self.dao.project_members.insert(project_id, members);
        Ok(())
    }

    /// Whether `account` has joined project `project_id`.
    pub fn is_project_member(&self, project_id: ProjectId, account: &AccountId) -> (r: bool)
        ensures
            r == self.in_project(project_id, account@),
    {
        match self.dao.project_members.get(&project_id) {
            Some(v) => contains_account(v, account),
            None => false,
        }
    }

    /// Stores task number `task_id + 1` and returns its id.
    fn create_task_internal(
        &mut self,
        description: String,
        caller: AccountId,
        assignee: AccountId,
        reviewer: AccountId,
        deadline: Timestamp,
        task_priority: TaskPriority,
        points: u32,
    ) -> (r: TaskId)
        ensures
            r == old(self).dao.task_id.saturating_add(1),
            final(self).dao.task_id == r,
            final(self).dao.task@ == old(self).dao.task@.insert(
                r,
                Task {
                    description,
                    assignee,
                    reviewer,
                    owner: caller,
                    deadline,
                    points,
                    priority: task_priority,
                    status: TaskStatus::ToDo,
                    review: final(self).dao.task@[r].review,
                },
            ),
            final(self).dao.task@[r].review@.len() == 0,
            final(self).dao == (Data {
                task: final(self).dao.task,
                task_id: final(self).dao.task_id,
                ..old(self).dao
            }),
            final(self).owner == old(self).owner,
            final(self).events == old(self).events,
    {
        let task = Task {
            description,
            assignee,
            reviewer,
            owner: caller,
            deadline,
            points,
            priority: task_priority,
            status: TaskStatus::ToDo,
            review: String::new(),
        };
        let task_id = self.dao.task_id.saturating_add(1);
        self.dao.task.insert(task_id, task);
        self.dao.task_id = task_id;
        task_id
    }

    /// What `create_task` does, from `pre` to `post`, with result `r`.
    pub open spec fn create_task_post(
        pre: DaoContract,
        post: DaoContract,
        caller: AccountId,
        now: Timestamp,
        description: String,
        assignee: AccountId,
        reviewer: AccountId,
        duration: Timestamp,
        points: u32,
        priority: u8,
        r: Result<(), DaoError>,
    ) -> bool {
        &&& !pre.is_member(caller@) ==> r == Err::<(), DaoError>(DaoError::MemberDoesNotExist)
        &&& pre.is_member(caller@) && priority_of(priority) is None ==> r == Err::<(), DaoError>(
            DaoError::WrongTaskPriority,
        )
        &&& r is Ok <==> pre.is_member(caller@) && priority_of(priority) is Some
        &&& r is Err ==> post == pre
        &&& r is Ok ==> {
            let id = pre.dao.task_id.saturating_add(1);
            &&& post.dao.task_id == id
            &&& post.dao.task@ == pre.dao.task@.insert(id, post.dao.task@[id])
            &&& new_task(
                post.dao.task@[id],
                description@,
                assignee,
                reviewer,
                caller,
                now.saturating_add(duration),
                points,
                priority_of(priority)->Some_0,
            )
            &&& post.dao.accounts.task_ids(assignee@) == pre.dao.accounts.task_ids(assignee@).push(id)
            &&& post.dao.accounts.member_id(assignee@) == pre.dao.accounts.member_id(assignee@)
            &&& post.dao.accounts.points(assignee@) == pre.dao.accounts.points(assignee@)
            &&& post.dao.accounts.proposal_ids(assignee@) == pre.dao.accounts.proposal_ids(assignee@)
            &&& post.dao.accounts.voted(assignee@) == pre.dao.accounts.voted(assignee@)
            &&& pre.dao.accounts.same_except(&post.dao.accounts, assignee@)
            &&& post.dao == (Data {
                    task: post.dao.task,
                    task_id: post.dao.task_id,
                    accounts: post.dao.accounts,
                    ..pre.dao
            })
            &&& post.owner == pre.owner
            &&& post.events@ == pre.events@.push(
                DaoEvent::TaskCreated(TaskCreated { creator: caller, task_id: id }),
            )
        }
    }

    /// A member creates a task for `assignee`, to be assessed by the second account,
    /// due `duration` after `now`; `priority` is 1, 2 or 3.
    pub fn create_task(
        &mut self,
        caller: AccountId,
        now: Timestamp,
        description: String,
        assignee: AccountId,
        reviewer: AccountId,
        duration: Timestamp,
        points: u32,
        priority: u8,
    ) -> (r: Result<(), DaoError>)
        ensures
            Self::create_task_post(*old(self), *final(self), caller, now, description, assignee, reviewer, duration, points, priority, r),
    {
        if !contains_account(&self.dao.members, &caller) {
            return Err(DaoError::MemberDoesNotExist);
        }
        let task_priority = match task_priority(priority) {
            Some(p) => p,
            None => {
                return Err(DaoError::WrongTaskPriority);
            },
        };
        let deadline = now.saturating_add(duration);
        let task_id = self.create_task_internal(
            description,
            caller,
            assignee,
            reviewer,
            deadline,
            task_priority,
            points,
        );
        self.dao.accounts.push_task_id(&assignee, task_id);
        self.emit_task_created_event(caller, task_id);
        Ok(())
    }

    /// What `create_project_task` does, from `pre` to `post`, with result `r`.
    pub open spec fn create_project_task_post(
        pre: DaoContract,
        post: DaoContract,
        caller: AccountId,
        now: Timestamp,
        project_id: ProjectId,
        description: String,
        assignee: AccountId,
        reviewer: AccountId,
        duration: Timestamp,
        points: u32,
        priority: u8,
        r: Result<(), DaoError>,
    ) -> bool {
        &&& !pre.in_project(project_id, caller@) || !pre.in_project(
            project_id,
            assignee@,
        ) || !pre.in_project(project_id, reviewer@) ==> r == Err::<(), DaoError>(
            DaoError::NotAProjectMember,
        )
        &&& pre.in_project(project_id, caller@) && pre.in_project(
            project_id,
            assignee@,
        ) && pre.in_project(project_id, reviewer@) && priority_of(priority) is None
            ==> r == Err::<(), DaoError>(DaoError::WrongTaskPriority)
        &&& r is Ok <==> {
            &&& pre.in_project(project_id, caller@)
            &&& pre.in_project(project_id, assignee@)
            &&& pre.in_project(project_id, reviewer@)
            &&& priority_of(priority) is Some
        }
        &&& r is Err ==> post == pre
        &&& r is Ok ==> {
            let id = pre.dao.task_id.saturating_add(1);
            &&& post.dao.task_id == id
            &&& post.dao.task@ == pre.dao.task@.insert(id, post.dao.task@[id])
            &&& new_task(
                post.dao.task@[id],
                description@,
                assignee,
                reviewer,
                caller,
                now.saturating_add(duration),
                points,
                priority_of(priority)->Some_0,
            )
            &&& post.dao.project_tasks@ == pre.dao.project_tasks@.insert(
                project_id,
                post.dao.project_tasks@[project_id],
            )
            &&& post.project_task_list(project_id) == pre.project_task_list(project_id).push(id)
            &&& post.dao.accounts.task_ids(assignee@) == pre.dao.accounts.task_ids(assignee@).push(id)
            &&& post.dao.accounts.member_id(assignee@) == pre.dao.accounts.member_id(assignee@)
            &&& post.dao.accounts.points(assignee@) == pre.dao.accounts.points(assignee@)
            &&& post.dao.accounts.proposal_ids(assignee@) == pre.dao.accounts.proposal_ids(assignee@)
            &&& post.dao.accounts.voted(assignee@) == pre.dao.accounts.voted(assignee@)
            &&& pre.dao.accounts.same_except(&post.dao.accounts, assignee@)
            &&& post.dao == (Data {
                    task: post.dao.task,
                    task_id: post.dao.task_id,
                    accounts: post.dao.accounts,
                    project_tasks: post.dao.project_tasks,
                    ..pre.dao
            })
            &&& post.owner == pre.owner
            &&& post.events@ == pre.events@.push(
                DaoEvent::TaskCreated(TaskCreated { creator: caller, task_id: id }),
            )
        }
    }

    /// A project member creates a task of the project; the assignee and the
    /// assessing account must be members of the project too.
    pub fn create_project_task(
        &mut self,
        caller: AccountId,
        now: Timestamp,
        project_id: ProjectId,
        description: String,
        assignee: AccountId,
        reviewer: AccountId,
        duration: Timestamp,
        points: u32,
        priority: u8,
    ) -> (r: Result<(), DaoError>)
        ensures
            Self::create_project_task_post(*old(self), *final(self), caller, now, project_id, description, assignee, reviewer, duration, points, priority, r),
    {
        if !self.is_project_member(project_id, &caller) {
            return Err(DaoError::NotAProjectMember);
        }
        if !self.is_project_member(project_id, &assignee) {
            return Err(DaoError::NotAProjectMember);
        }
        if !self.is_project_member(project_id, &reviewer) {
            return Err(DaoError::NotAProjectMember);
        }
        let deadline = now.saturating_add(duration);
        let task_priority = match task_priority(priority) {
            Some(p) => p,
            None => {
                return Err(DaoError::WrongTaskPriority);
            },
        };
        let task_id = self.create_task_internal(
            description,
            caller,
            assignee,
            reviewer,
            deadline,
            task_priority,
            points,
        );
        let mut tasks = match self.dao.project_tasks.get(&project_id) {
            Some(v) => copy_ids(v),
            None => Vec::new(),
        };
        tasks.push(task_id);
        self.dao.project_tasks.insert(project_id, tasks);
        self.dao.accounts.push_task_id(&assignee, task_id);
        self.emit_task_created_event(caller, task_id);
        Ok(())
    }

    /// What `start_task` does, from `pre` to `post`, with result `r`.
    pub open spec fn start_task_post(
        pre: DaoContract,
        post: DaoContract,
        caller: AccountId,
        task_id: TaskId,
        r: Result<(), DaoError>,
    ) -> bool {
        &&& !pre.dao.task@.contains_key(task_id) ==> r == Err::<(), DaoError>(
            DaoError::TaskDoesNotExist,
        )
        &&& pre.dao.task@.contains_key(task_id) && pre.dao.task@[task_id].assignee@
            != caller@ ==> r == Err::<(), DaoError>(DaoError::IneligibleCaller)
        &&& r is Ok <==> pre.dao.task@.contains_key(task_id) && pre.dao.task@[task_id].assignee@
            == caller@
        &&& r is Err ==> post == pre
        &&& r is Ok ==> {
            &&& post.dao.task@ == pre.dao.task@.insert(
                task_id,
                post.dao.task@[task_id],
            )
            &&& post.dao.task@[task_id].same_as(
                &(Task { status: TaskStatus::InProgress, ..pre.dao.task@[task_id] }),
            )
            &&& post.dao == (Data { task: post.dao.task, ..pre.dao })
            &&& post.owner == pre.owner
            &&& post.events == pre.events
        }
    }

    /// The assignee starts a task.
    pub fn start_task(&mut self, caller: AccountId, task_id: TaskId) -> (r: Result<(), DaoError>)
        ensures
            Self::start_task_post(*old(self), *final(self), caller, task_id, r),
    {
        let mut task = match self.dao.task.get(&task_id) {
            Some(t) => t.duplicate(),
            None => {
                return Err(DaoError::TaskDoesNotExist);
            },
        };
        if !(task.assignee == caller) {
            return Err(DaoError::IneligibleCaller);
        }
        task.status = TaskStatus::InProgress;
        self.dao.task.insert(task_id, task);
        Ok(())
    }

    /// What `submit_task` does, from `pre` to `post`, with result `r`.
    pub open spec fn submit_task_post(
        pre: DaoContract,
        post: DaoContract,
        caller: AccountId,
        task_id: TaskId,
        r: Result<(), DaoError>,
    ) -> bool {
        &&& !pre.dao.task@.contains_key(task_id) ==> r == Err::<(), DaoError>(
            DaoError::TaskDoesNotExist,
        )
        &&& pre.dao.task@.contains_key(task_id) && pre.dao.task@[task_id].assignee@
            != caller@ ==> r == Err::<(), DaoError>(DaoError::IneligibleCaller)
        &&& r is Ok <==> pre.dao.task@.contains_key(task_id) && pre.dao.task@[task_id].assignee@
            == caller@
        &&& r is Err ==> post == pre
        &&& r is Ok ==> {
            &&& post.dao.task@ == pre.dao.task@.insert(
                task_id,
                post.dao.task@[task_id],
            )
            &&& post.dao.task@[task_id].same_as(
                &(Task { status: TaskStatus::UnderReview, ..pre.dao.task@[task_id] }),
            )
            &&& post.dao == (Data { task: post.dao.task, ..pre.dao })
            &&& post.owner == pre.owner
            &&& post.events == pre.events
        }
    }

    /// The assignee hands a task in. The status before is not checked.
    pub fn submit_task(&mut self, caller: AccountId, task_id: TaskId) -> (r: Result<(), DaoError>)
        ensures
            Self::submit_task_post(*old(self), *final(self), caller, task_id, r),
    {
        let mut task = match self.dao.task.get(&task_id) {
            Some(t) => t.duplicate(),
            None => {
                return Err(DaoError::TaskDoesNotExist);
            },
        };
        if !(task.assignee == caller) {
            return Err(DaoError::IneligibleCaller);
        }
        task.status = TaskStatus::UnderReview;
        self.dao.task.insert(task_id, task);
        Ok(())
    }

    /// What `review_task` does, from `pre` to `post`, with result `r`.
    pub open spec fn review_task_post(
        pre: DaoContract,
        post: DaoContract,
        caller: AccountId,
        task_id: TaskId,
        review: String,
        awarded_points: u32,
        r: Result<(), DaoError>,
    ) -> bool {
        &&& !pre.dao.task@.contains_key(task_id) ==> r == Err::<(), DaoError>(
            DaoError::TaskDoesNotExist,
        )
        &&& pre.dao.task@.contains_key(task_id) && pre.dao.task@[task_id].reviewer@
            != caller@ ==> r == Err::<(), DaoError>(DaoError::IneligibleCaller)
        &&& r is Ok <==> pre.dao.task@.contains_key(task_id) && pre.dao.task@[task_id].reviewer@
            == caller@
        &&& r is Err ==> post == pre
        &&& r is Ok ==> {
            let t = pre.dao.task@[task_id];
            let a = t.assignee@;
            &&& post.dao.task@ == pre.dao.task@.insert(
                task_id,
                post.dao.task@[task_id],
            )
            &&& post.dao.task@[task_id].same_as(
                &(Task { status: TaskStatus::Done, review, ..t }),
            )
            &&& post.dao.accounts.points(a) == pre.dao.accounts.points(a).saturating_add(awarded_points)
            &&& post.dao.accounts.member_id(a) == pre.dao.accounts.member_id(a)
            &&& post.dao.accounts.task_ids(a) == pre.dao.accounts.task_ids(a)
            &&& post.dao.accounts.proposal_ids(a) == pre.dao.accounts.proposal_ids(a)
            &&& post.dao.accounts.voted(a) == pre.dao.accounts.voted(a)
            &&& pre.dao.accounts.same_except(&post.dao.accounts, a)
            &&& post.dao == (Data {
                    task: post.dao.task,
                    accounts: post.dao.accounts,
                    ..pre.dao
            })
            &&& post.owner == pre.owner
            &&& post.events == pre.events
        }
    }

    /// The task's assessing account completes it and awards its assignee `awarded_points`
    /// (added saturating).
    pub fn review_task(&mut self, caller: AccountId, task_id: TaskId, review: String, awarded_points: u32) -> (r:
        Result<(), DaoError>)
        ensures
            Self::review_task_post(*old(self), *final(self), caller, task_id, review, awarded_points, r),
    {
        let mut task = match self.dao.task.get(&task_id) {
            Some(t) => t.duplicate(),
            None => {
                return Err(DaoError::TaskDoesNotExist);
            },
        };
        if !(task.reviewer == caller) {
            return Err(DaoError::IneligibleCaller);
        }
        task.status = TaskStatus::Done;
        task.review = review;
        let assignee = task.assignee;
        self.dao.accounts.add_points(&assignee, awarded_points);
        self.dao.task.insert(task_id, task);
        Ok(())
    }

    /// The vote of proposal `id` as the queries read it: the empty vote
    /// for an id out of `1..=proposal_id` or one without a vote.
    pub open spec fn vote_of(&self, id: ProposalId) -> Vote {
        if id == 0 || id > self.dao.proposal_id || !self.dao.vote@.contains_key(id) {
            Vote::spec_empty()
        } else {
            self.dao.vote@[id]
        }
    }

    pub fn get_token_address(&self) -> (r: AccountId)
        ensures
            r == self.dao.token,
    {
        self.dao.token
    }

    pub fn get_quorum(&self) -> (r: u32)
        ensures
            r == self.dao.quorum,
    {
        self.dao.quorum
    }

    pub fn get_number_of_members(&self) -> (r: u32)
        ensures
            r == self.dao.member_id,
    {
        self.dao.member_id
    }

    pub fn get_members(&self) -> (r: Vec<AccountId>)
        ensures
            r@ == self.dao.members@,
    {
        copy_accounts(&self.dao.members)
    }

    pub fn get_project_members(&self, project_id: ProjectId) -> (r: Vec<AccountId>)
        ensures
            r@ == if project_id == 0 || project_id > self.dao.project_id {
                Seq::empty()
            } else {
                self.project_member_list(project_id)
            },
    {
        if project_id == 0 || project_id > self.dao.project_id {
            return Vec::new();
        }
        match self.dao.project_members.get(&project_id) {
            Some(v) => copy_accounts(v),
            None => Vec::new(),
        }
    }

    pub fn get_proposal_vote(&self, proposal_id: ProposalId) -> (r: Vote)
        ensures
            r == self.vote_of(proposal_id),
    {
        if proposal_id == 0 || proposal_id > self.dao.proposal_id {
            return Vote::default();
        }
        match self.dao.vote.get(&proposal_id) {
            Some(v) => *v,
            None => Vote::default(),
        }
    }

    /// The yes and no counts of a proposal's vote.
    pub fn get_current_vote_count(&self, proposal_id: ProposalId) -> (r: (u32, u32))
        ensures
            r == (self.vote_of(proposal_id).yes_votes, self.vote_of(proposal_id).no_votes),
    {
        let v = self.get_proposal_vote(proposal_id);
        (v.yes_votes, v.no_votes)
    }

    pub fn get_number_of_projects(&self) -> (r: u32)
        ensures
            r == self.dao.project_id,
    {
        self.dao.project_id
    }

    pub fn get_number_of_tasks(&self) -> (r: u32)
        ensures
            r == self.dao.task_id,
    {
        self.dao.task_id
    }

    pub fn get_number_of_proposals(&self) -> (r: u32)
        ensures
            r == self.dao.proposal_id,
    {
        self.dao.proposal_id
    }

    pub fn get_task(&self, task_id: TaskId) -> (r: Task)
        ensures
            if task_id == 0 || task_id > self.dao.task_id || !self.dao.task@.contains_key(task_id) {
                r.is_empty()
            } else {
                r.same_as(&self.dao.task@[task_id])
            },
    {
        if task_id == 0 || task_id > self.dao.task_id {
            return Task::default();
        }
        match self.dao.task.get(&task_id) {
            Some(t) => t.duplicate(),
            None => Task::default(),
        }
    }

    pub fn get_project(&self, project_id: ProjectId) -> (r: Project)
        ensures
            if project_id == 0 || project_id > self.dao.project_id || !self.dao.project@.contains_key(
                project_id,
            ) {
                r.is_empty()
            } else {
                r.same_as(&self.dao.project@[project_id])
            },
    {
        if project_id == 0 || project_id > self.dao.project_id {
            return Project::default();
        }
        match self.dao.project.get(&project_id) {
            Some(p) => p.duplicate(),
            None => Project::default(),
        }
    }

    pub fn get_proposal(&self, proposal_id: ProposalId) -> (r: Proposal)
        ensures
            if proposal_id == 0 || proposal_id > self.dao.proposal_id || !self.dao.proposal@.contains_key(
                proposal_id,
            ) {
                r.is_empty()
            } else {
                r.same_as(&self.dao.proposal@[proposal_id])
            },
    {
        if proposal_id == 0 || proposal_id > self.dao.proposal_id {
            return Proposal::default();
        }
        match self.dao.proposal.get(&proposal_id) {
            Some(p) => p.duplicate(),
            None => Proposal::default(),
        }
    }

    pub fn get_project_task_ids(&self, project_id: ProjectId) -> (r: Vec<TaskId>)
        ensures
            r@ == if project_id == 0 || project_id > self.dao.project_id {
                Seq::empty()
            } else {
                self.project_task_list(project_id)
            },
    {
        if project_id == 0 || project_id > self.dao.project_id {
            return Vec::new();
        }
        match self.dao.project_tasks.get(&project_id) {
            Some(v) => copy_ids(v),
            None => Vec::new(),
        }
    }

    /// The number of tasks of a project, capped at `u32::MAX`.
    pub fn get_number_of_project_tasks(&self, project_id: ProjectId) -> (r: u32)
        ensures
            r as int == if self.project_task_list(project_id).len() > u32::MAX {
                u32::MAX as int
            } else {
                self.project_task_list(project_id).len() as int
            },
    {
        match self.dao.project_tasks.get(&project_id) {
            Some(v) => {
                if v.len() > u32::MAX as usize {
                    u32::MAX
                } else {
                    v.len() as u32
                }
            },
            None => 0,
        }
    }

    pub fn get_member_points(&self, assignee: AccountId) -> (r: u32)
        ensures
            r == self.dao.accounts.points(assignee@),
    {
        self.dao.accounts.get_points(&assignee)
    }

    pub fn get_member_task_ids(&self, assignee: AccountId) -> (r: Vec<TaskId>)
        ensures
            r@ == self.dao.accounts.task_ids(assignee@),
    {
        self.dao.accounts.get_task_ids(&assignee)
    }

    pub fn get_member_proposal_ids(&self, assignee: AccountId) -> (r: Vec<ProposalId>)
        ensures
            r@ == self.dao.accounts.proposal_ids(assignee@),
    {
        self.dao.accounts.get_proposal_ids(&assignee)
    }

    /// The member id given to `account` on admission; 0 for a non-member.
    pub fn get_member_id(&self, account: AccountId) -> (r: u32)
        ensures
            r == self.dao.accounts.member_id(account@),
    {
        self.dao.accounts.get_member_id(&account)
    }

    /// Whether `account` is a member of the DAO.
    pub fn check_membership(&self, account: AccountId) -> (r: bool)
        ensures
            r == self.is_member(account@),
    {
        contains_account(&self.dao.members, &account)
    }

    pub fn proposal_exists(&self, proposal_id: ProposalId) -> (r: bool)
        ensures
            r == self.dao.proposal@.contains_key(proposal_id),
    {
        self.dao.proposal.contains_key(&proposal_id)
    }

    pub fn project_exists(&self, project_id: ProjectId) -> (r: bool)
        ensures
            r == self.dao.project@.contains_key(project_id),
    {
        self.dao.project.contains_key(&project_id)
    }

    pub fn task_exists(&self, task_id: TaskId) -> (r: bool)
        ensures
            r == self.dao.task@.contains_key(task_id),
    {
        self.dao.task.contains_key(&task_id)
    }
}

} // verus!
