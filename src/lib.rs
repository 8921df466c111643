//! The state machines of a DAO and of a registry of DAOs: membership,
//! proposals and votes, projects, and tasks with point rewards.
//!
//! The library holds no environment of its own: each operation takes the
//! calling account, the current block time, and what outside contracts
//! answered (a token balance, a DAO's token) as arguments.

pub mod account;
pub mod ledger;
pub mod dao_types;
pub mod dao;
pub mod daomanager;
pub mod laws;

pub use account::AccountId;
pub use dao::{DaoContract, DaoEvent, MemberAdded, ProjectCreated, ProposalCreated, TaskCreated};
pub use dao_types::{
    DaoError, OwnableError, Project, Proposal, Task, TaskPriority, TaskStatus, Vote, VoteStatus,
};
pub use daomanager::{DaoManagerContract, DaoManagerError};
