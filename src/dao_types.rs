use vstd::prelude::*;
use crate::account::AccountId;

verus! {

pub type ProposalId = u32;
pub type ProjectId = u32;
pub type TaskId = u32;
pub type Timestamp = u64;
pub type Balance = u128;

/// Failure of the owner-only gate.
#[derive(Clone, Copy, Debug, PartialEq, Eq, Structural)]
pub enum OwnableError {
    CallerIsNotOwner,
}

#[derive(Clone, Copy, Debug, PartialEq, Eq, Structural)]
pub enum DaoError {
    /// Caller is not the owner.
    OwnableError(OwnableError),
    MemberAlreadyExists,
    MemberDoesNotExist,
    NotEligibleForMembership,
    WrongTaskPriority,
    MemberExistsInProject,
    TaskDoesNotExist,
    IneligibleCaller,
    MemberHasAlreadyVoted,
    VotingPeriodExpired,
    ProposalDoesNotExist,
    VoteNotAvailable,
    VoteOngoing,
    QuorumNotAchieved,
    NotAProjectMember,
}

impl From<OwnableError> for DaoError {
    fn from(error: OwnableError) -> (r: DaoError) {
        DaoError::OwnableError(error)
    }
}

impl vstd::std_specs::convert::FromSpecImpl<OwnableError> for DaoError {
    open spec fn obeys_from_spec() -> bool {
        true
    }

    open spec fn from_spec(error: OwnableError) -> DaoError {
        DaoError::OwnableError(error)
    }
}

#[derive(Clone, Copy, Debug, PartialEq, Eq, Structural)]
pub enum VoteStatus {
    NotAvailable,
    InProgress,
    Passed,
    Failed,
}

#[derive(Clone, Copy, Debug, PartialEq, Eq, Structural)]
pub enum TaskPriority {
    NoPriority,
    Low,
    Moderate,
    High,
}

#[derive(Clone, Copy, Debug, PartialEq, Eq, Structural)]
pub enum TaskStatus {
    ToDo,
    InProgress,
    UnderReview,
    Done,
}

/// The tally and time window of the vote on one proposal.
#[derive(Clone, Copy, Debug, PartialEq, Eq, Structural)]
pub struct Vote {
    pub yes_votes: u32,
    pub no_votes: u32,
    pub start: Timestamp,
    pub end: Timestamp,
    pub vote_status: VoteStatus,
}

impl Vote {
    /// The vote read for a proposal that does not exist.
    pub open spec fn spec_empty() -> Vote {
        Vote { yes_votes: 0, no_votes: 0, start: 0, end: 0, vote_status: VoteStatus::NotAvailable }
    }
}

impl Default for Vote {
    fn default() -> (r: Vote)
        ensures
            r == Vote::spec_empty(),
    {
        Vote { yes_votes: 0, no_votes: 0, start: 0, end: 0, vote_status: VoteStatus::NotAvailable }
    }
}

#[derive(Debug)]
pub struct Project {
    pub creator: AccountId,
    pub description: String,
}

impl Project {
    pub open spec fn same_as(&self, o: &Project) -> bool {
        self.creator == o.creator && self.description@ == o.description@
    }

    pub open spec fn is_empty(&self) -> bool {
        self.creator@ == Seq::new(32, |i: int| 0u8) && self.description@.len() == 0
    }

    pub fn duplicate(&self) -> (r: Project)
        ensures
            r.same_as(self),
    {
        Project { creator: self.creator, description: self.description.clone() }
    }
}

impl Default for Project {
    fn default() -> (r: Project)
        ensures
            r.is_empty(),
    {
        Project { creator: AccountId::zero(), description: String::new() }
    }
}

#[derive(Debug)]
pub struct Proposal {
    pub creator: AccountId,
    pub description: String,
}

impl Proposal {
    pub open spec fn same_as(&self, o: &Proposal) -> bool {
        self.creator == o.creator && self.description@ == o.description@
    }

    pub open spec fn is_empty(&self) -> bool {
        self.creator@ == Seq::new(32, |i: int| 0u8) && self.description@.len() == 0
    }

    pub fn duplicate(&self) -> (r: Proposal)
        ensures
            r.same_as(self),
    {
        Proposal { creator: self.creator, description: self.description.clone() }
    }
}

impl Default for Proposal {
    fn default() -> (r: Proposal)
        ensures
            r.is_empty(),
    {
        Proposal { creator: AccountId::zero(), description: String::new() }
    }
}

#[derive(Debug)]
pub struct Task {
    pub description: String,
    pub assignee: AccountId,
    pub reviewer: AccountId,
    pub owner: AccountId,
    pub deadline: Timestamp,
    pub points: u32,
    pub priority: TaskPriority,
    pub status: TaskStatus,
    pub review: String,
}

impl Task {
    pub open spec fn same_as(&self, o: &Task) -> bool {
        &&& self.description@ == o.description@
        &&& self.assignee == o.assignee
        &&& self.reviewer == o.reviewer
        &&& self.owner == o.owner
        &&& self.deadline == o.deadline
        &&& self.points == o.points
        &&& self.priority == o.priority
        &&& self.status == o.status
        &&& self.review@ == o.review@
    }

    pub open spec fn is_empty(&self) -> bool {
        &&& self.description@.len() == 0
        &&& self.assignee@ == Seq::new(32, |i: int| 0u8)
        &&& self.reviewer@ == Seq::new(32, |i: int| 0u8)
        &&& self.owner@ == Seq::new(32, |i: int| 0u8)
        &&& self.deadline == 0
        &&& self.points == 0
        &&& self.priority == TaskPriority::NoPriority
        &&& self.status == TaskStatus::ToDo
        &&& self.review@.len() == 0
    }

    pub fn duplicate(&self) -> (r: Task)
        ensures
            r.same_as(self),
    {
        Task {
            description: self.description.clone(),
            assignee: self.assignee,
            reviewer: self.reviewer,
            owner: self.owner,
            deadline: self.deadline,
            points: self.points,
            priority: self.priority,
            status: self.status,
            review: self.review.clone(),
        }
    }
}

impl Default for Task {
    fn default() -> (r: Task)
        ensures
            r.is_empty(),
    {
        Task {
            description: String::new(),
            assignee: AccountId::zero(),
            reviewer: AccountId::zero(),
            owner: AccountId::zero(),
            deadline: 0,
            points: 0,
            priority: TaskPriority::NoPriority,
            status: TaskStatus::ToDo,
            review: String::new(),
        }
    }
}

/// The priority that the numbers 1, 2 and 3 stand for.
pub open spec fn priority_of(p: u8) -> Option<TaskPriority> {
    if p == 1 {
        Some(TaskPriority::Low)
    } else if p == 2 {
        Some(TaskPriority::Moderate)
    } else if p == 3 {
        Some(TaskPriority::High)
    } else {
        None
    }
}

/// Reads a task priority from its number; `None` outside 1..=3.
pub fn task_priority(p: u8) -> (r: Option<TaskPriority>)
    ensures
        r == priority_of(p),
{
    match p {
        1 => Some(TaskPriority::Low),
        2 => Some(TaskPriority::Moderate),
        3 => Some(TaskPriority::High),
        _ => None,
    }
}

} // verus!
