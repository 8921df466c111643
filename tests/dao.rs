use toyota_dao::{AccountId, DaoContract, DaoError, DaoEvent, MemberAdded, OwnableError};
use toyota_dao::{ProjectCreated, ProposalCreated, TaskCreated, TaskPriority, TaskStatus, VoteStatus};

fn alice() -> AccountId {
    AccountId::from_bytes([1; 32])
}

fn bob() -> AccountId {
    AccountId::from_bytes([2; 32])
}

fn charlie() -> AccountId {
    AccountId::from_bytes([3; 32])
}

fn django() -> AccountId {
    AccountId::from_bytes([4; 32])
}

fn token_address() -> AccountId {
    AccountId::from_bytes([0x10; 32])
}

fn init_contract() -> DaoContract {
    DaoContract::new(alice(), token_address(), b"Test".to_vec())
}

fn text(s: &str) -> String {
    String::from(s)
}

#[test]
fn lib_new_works() {
    let dao = init_contract();
    assert_eq!(dao.get_token_address(), token_address());
    assert_eq!(dao.get_number_of_members(), 1u32);
    assert_eq!(dao.get_members(), vec![alice()]);
    assert_eq!(dao.get_member_id(alice()), 1);
    assert_eq!(dao.get_quorum(), 0);
}

#[test]
fn add_member_works() {
    let mut dao = init_contract();
    assert_eq!(dao.get_number_of_members(), 1u32);

    assert!(dao.add_member(alice(), bob()).is_ok());
    assert_eq!(dao.get_number_of_members(), 2u32);

    assert_eq!(dao.get_members(), vec![alice(), bob()]);
    assert_eq!(dao.get_member_id(bob()), 2);
}

#[test]
fn create_project_works() {
    let mut dao = init_contract();
    assert!(dao.add_member(alice(), bob()).is_ok());
    assert!(dao.add_member(alice(), charlie()).is_ok());

    assert_eq!(dao.get_number_of_projects(), 0u32);
    assert!(dao.create_project(bob(), text("Project 1")).is_ok());
    assert_eq!(dao.get_number_of_projects(), 1u32);

    assert!(dao.create_project(charlie(), text("Project 2")).is_ok());
    assert_eq!(dao.get_number_of_projects(), 2u32);
}

#[test]
fn join_project_works() {
    let mut dao = init_contract();
    assert!(dao.add_member(alice(), bob()).is_ok());
    assert!(dao.add_member(alice(), charlie()).is_ok());

    assert!(dao.create_project(bob(), text("Project 1")).is_ok());

    assert!(dao.join_project(bob(), 1).is_ok());
    assert_eq!(dao.get_project_members(1), vec![bob()]);
}

#[test]
fn create_task_works() {
    let mut dao = init_contract();
    assert!(dao.add_member(alice(), bob()).is_ok());

    let duration = 1000000;
    let points = 100;
    let priority = 1;

    assert_eq!(dao.get_number_of_tasks(), 0u32);
    assert!(dao.create_task(alice(), 0, text("Task"), bob(), alice(), duration, points, priority).is_ok());
    assert_eq!(dao.get_number_of_tasks(), 1u32);

    assert_eq!(dao.get_member_points(bob()), 0u32);
}

#[test]
fn create_project_task_works() {
    let mut dao = init_contract();
    assert!(dao.add_member(alice(), bob()).is_ok());
    assert!(dao.add_member(alice(), charlie()).is_ok());

    assert!(dao.create_project(bob(), text("Project 1")).is_ok());
    assert!(dao.join_project(bob(), 1).is_ok());
    assert!(dao.join_project(alice(), 1).is_ok());
    assert!(dao.join_project(charlie(), 1).is_ok());

    let duration = 1000000;
    let points = 100;
    let priority = 1;

    assert_eq!(dao.get_number_of_project_tasks(1), 0u32);
    assert!(dao
        .create_project_task(bob(), 0, 1, text("Task 1"), charlie(), alice(), duration, points, priority)
        .is_ok());
    assert_eq!(dao.get_number_of_project_tasks(1), 1u32);
    assert_eq!(dao.get_member_task_ids(charlie()), vec![1]);

    let duration2 = 10000;
    let points2 = 10;
    let priority2 = 2;

    assert!(dao
        .create_project_task(bob(), 0, 1, text("Task 2"), charlie(), alice(), duration2, points2, priority2)
        .is_ok());
    assert_eq!(dao.get_number_of_project_tasks(1), 2u32);
    assert_eq!(dao.get_member_task_ids(charlie()), vec![1, 2]);
}

#[test]
fn create_proposal_works() {
    let mut dao = init_contract();
    assert!(dao.add_member(alice(), bob()).is_ok());
    assert!(dao.add_member(alice(), charlie()).is_ok());

    let duration = 100000;

    assert_eq!(dao.get_number_of_proposals(), 0u32);
    assert!(dao.create_proposal(bob(), 0, text("Proposal 1"), duration).is_ok());
    assert_eq!(dao.get_number_of_proposals(), 1u32);

    assert_eq!(dao.get_current_vote_count(1), (0u32, 0u32));

    assert!(dao.vote(charlie(), 0, 1, true).is_ok());
    assert_eq!(dao.get_current_vote_count(1), (1u32, 0u32));
}

#[test]
fn add_member_twice_is_refused() {
    let mut dao = init_contract();
    assert_eq!(dao.add_member(alice(), bob()), Ok(()));
    assert_eq!(dao.add_member(alice(), bob()), Err(DaoError::MemberAlreadyExists));
    assert_eq!(dao.get_number_of_members(), 2);
    assert_eq!(dao.get_members(), vec![alice(), bob()]);
    assert_eq!(dao.add_member(alice(), alice()), Err(DaoError::MemberAlreadyExists));
}

#[test]
fn add_member_needs_owner() {
    let mut dao = init_contract();
    assert_eq!(dao.add_member(alice(), bob()), Ok(()));
    assert_eq!(
        dao.add_member(bob(), charlie()),
        Err(DaoError::OwnableError(OwnableError::CallerIsNotOwner))
    );
    assert_eq!(dao.get_number_of_members(), 2);
}

#[test]
fn join_dao_checks_eligibility() {
    let mut dao = init_contract();
    assert_eq!(dao.join_dao(bob(), 0), Err(DaoError::NotEligibleForMembership));
    assert_eq!(dao.join_dao(bob(), 5), Ok(()));
    assert_eq!(dao.join_dao(bob(), 5), Err(DaoError::MemberAlreadyExists));
    assert_eq!(dao.get_number_of_members(), 2);
    assert!(dao.check_membership(bob()));
    assert!(!dao.check_membership(charlie()));
    assert!(DaoContract::is_eligible(1));
    assert!(!DaoContract::is_eligible(0));
}

#[test]
fn proposal_vote_window() {
    let mut dao = init_contract();
    assert!(dao.add_member(alice(), bob()).is_ok());
    assert_eq!(dao.create_proposal(charlie(), 7, text("No"), 10), Err(DaoError::MemberDoesNotExist));
    assert_eq!(dao.create_proposal(bob(), 1000, text("Proposal 1"), 500), Ok(()));
    let v = dao.get_proposal_vote(1);
    assert_eq!(v.vote_status, VoteStatus::InProgress);
    assert_eq!(v.yes_votes, 0);
    assert_eq!(v.no_votes, 0);
    assert_eq!(v.start, 1000);
    assert_eq!(v.end, 1500);
    assert_eq!(dao.vote(alice(), 1501, 1, true), Err(DaoError::VotingPeriodExpired));
    assert_eq!(dao.vote(alice(), 1500, 1, false), Ok(()));
    assert_eq!(dao.get_current_vote_count(1), (0, 1));
    assert_eq!(dao.get_member_proposal_ids(bob()), vec![1]);
    let p = dao.get_proposal(1);
    assert_eq!(p.creator, bob());
    assert_eq!(p.description, "Proposal 1");
}

#[test]
fn proposal_end_saturates() {
    let mut dao = init_contract();
    assert_eq!(dao.create_proposal(alice(), 10, text("Long"), u64::MAX), Ok(()));
    assert_eq!(dao.get_proposal_vote(1).end, u64::MAX);
}

#[test]
fn one_vote_per_member() {
    let mut dao = init_contract();
    assert!(dao.add_member(alice(), bob()).is_ok());
    assert!(dao.add_member(alice(), charlie()).is_ok());
    assert!(dao.create_proposal(alice(), 0, text("P"), 100).is_ok());
    assert_eq!(dao.vote(bob(), 1, 1, true), Ok(()));
    assert_eq!(dao.vote(bob(), 2, 1, false), Err(DaoError::MemberHasAlreadyVoted));
    assert_eq!(dao.vote(charlie(), 3, 1, true), Ok(()));
    assert_eq!(dao.vote(alice(), 3, 1, false), Ok(()));
    assert_eq!(dao.get_current_vote_count(1), (2, 1));
    assert_eq!(dao.vote(django(), 3, 1, true), Err(DaoError::MemberDoesNotExist));
    assert_eq!(dao.vote(bob(), 3, 2, true), Err(DaoError::ProposalDoesNotExist));
}

#[test]
fn finalize_vote_lifecycle() {
    let mut dao = init_contract();
    assert!(dao.add_member(alice(), bob()).is_ok());
    assert!(dao.create_proposal(alice(), 0, text("P"), 100).is_ok());
    assert!(dao.vote(bob(), 10, 1, true).is_ok());
    assert_eq!(dao.finalize_vote(bob(), 99, 1), Err(DaoError::VoteOngoing));
    assert_eq!(dao.finalize_vote(charlie(), 100, 1), Err(DaoError::MemberDoesNotExist));
    assert_eq!(dao.finalize_vote(bob(), 100, 2), Err(DaoError::ProposalDoesNotExist));
    assert_eq!(dao.finalize_vote(bob(), 100, 1), Ok(()));
    assert_eq!(dao.get_proposal_vote(1).vote_status, VoteStatus::Passed);
    assert_eq!(dao.finalize_vote(bob(), 200, 1), Err(DaoError::VoteNotAvailable));
}

#[test]
fn finalize_tie_fails() {
    let mut dao = init_contract();
    assert!(dao.add_member(alice(), bob()).is_ok());
    assert!(dao.create_proposal(alice(), 0, text("P"), 5).is_ok());
    assert!(dao.vote(bob(), 1, 1, true).is_ok());
    assert!(dao.vote(alice(), 1, 1, false).is_ok());
    assert_eq!(dao.finalize_vote(alice(), 5, 1), Ok(()));
    assert_eq!(dao.get_proposal_vote(1).vote_status, VoteStatus::Failed);
}

#[test]
fn finalize_below_quorum_fails() {
    let mut dao = init_contract();
    dao.dao.quorum = 3;
    assert!(dao.add_member(alice(), bob()).is_ok());
    assert!(dao.create_proposal(alice(), 0, text("P"), 5).is_ok());
    assert!(dao.vote(bob(), 1, 1, true).is_ok());
    assert!(dao.vote(alice(), 1, 1, true).is_ok());
    assert_eq!(dao.finalize_vote(alice(), 6, 1), Ok(()));
    assert_eq!(dao.get_proposal_vote(1).vote_status, VoteStatus::Failed);
}

#[test]
fn task_priority_checked() {
    let mut dao = init_contract();
    assert_eq!(
        dao.create_task(alice(), 0, text("T"), bob(), alice(), 1, 1, 0),
        Err(DaoError::WrongTaskPriority)
    );
    assert_eq!(
        dao.create_task(alice(), 0, text("T"), bob(), alice(), 1, 1, 4),
        Err(DaoError::WrongTaskPriority)
    );
    assert_eq!(
        dao.create_task(bob(), 0, text("T"), bob(), alice(), 1, 1, 1),
        Err(DaoError::MemberDoesNotExist)
    );
    assert_eq!(dao.get_number_of_tasks(), 0);
    assert_eq!(dao.create_task(alice(), 50, text("T"), bob(), alice(), 25, 7, 3), Ok(()));
    let t = dao.get_task(1);
    assert_eq!(t.priority, TaskPriority::High);
    assert_eq!(t.status, TaskStatus::ToDo);
    assert_eq!(t.deadline, 75);
    assert_eq!(t.points, 7);
    assert_eq!(t.assignee, bob());
    assert_eq!(t.reviewer, alice());
    assert_eq!(t.owner, alice());
    assert_eq!(t.description, "T");
    assert_eq!(t.review, "");
    assert_eq!(dao.get_member_task_ids(bob()), vec![1]);
}

#[test]
fn task_lifecycle_and_points() {
    let mut dao = init_contract();
    assert!(dao.add_member(alice(), bob()).is_ok());
    assert!(dao.create_task(alice(), 0, text("T"), bob(), alice(), 10, 5, 2).is_ok());
    assert_eq!(dao.start_task(alice(), 1), Err(DaoError::IneligibleCaller));
    assert_eq!(dao.start_task(bob(), 2), Err(DaoError::TaskDoesNotExist));
    assert_eq!(dao.submit_task(bob(), 1), Ok(()));
    assert_eq!(dao.get_task(1).status, TaskStatus::UnderReview);
    assert_eq!(dao.review_task(bob(), 1, text("self"), 9), Err(DaoError::IneligibleCaller));
    assert_eq!(dao.review_task(alice(), 3, text("x"), 9), Err(DaoError::TaskDoesNotExist));
    assert_eq!(dao.get_member_points(bob()), 0);
    assert_eq!(dao.review_task(alice(), 1, text("fine"), 40), Ok(()));
    assert_eq!(dao.get_task(1).status, TaskStatus::Done);
    assert_eq!(dao.get_task(1).review, "fine");
    assert_eq!(dao.get_member_points(bob()), 40);
    assert_eq!(dao.get_member_points(alice()), 0);
}

#[test]
fn points_saturate() {
    let mut dao = init_contract();
    assert!(dao.create_task(alice(), 0, text("T"), bob(), alice(), 10, 5, 1).is_ok());
    assert_eq!(dao.review_task(alice(), 1, text("a"), u32::MAX - 1), Ok(()));
    assert_eq!(dao.review_task(alice(), 1, text("b"), 5), Ok(()));
    assert_eq!(dao.get_member_points(bob()), u32::MAX);
}

#[test]
fn project_task_needs_project_members() {
    let mut dao = init_contract();
    assert!(dao.add_member(alice(), bob()).is_ok());
    assert!(dao.add_member(alice(), charlie()).is_ok());
    assert!(dao.create_project(bob(), text("P1")).is_ok());
    assert!(dao.join_project(bob(), 1).is_ok());
    assert_eq!(dao.join_project(bob(), 1), Err(DaoError::MemberExistsInProject));
    assert_eq!(dao.join_project(django(), 1), Err(DaoError::MemberDoesNotExist));
    assert_eq!(
        dao.create_project_task(bob(), 0, 1, text("T"), charlie(), bob(), 1, 1, 1),
        Err(DaoError::NotAProjectMember)
    );
    assert_eq!(
        dao.create_project_task(bob(), 0, 1, text("T"), bob(), charlie(), 1, 1, 1),
        Err(DaoError::NotAProjectMember)
    );
    assert_eq!(
        dao.create_project_task(charlie(), 0, 1, text("T"), bob(), bob(), 1, 1, 1),
        Err(DaoError::NotAProjectMember)
    );
    assert_eq!(
        dao.create_project_task(bob(), 0, 1, text("T"), bob(), bob(), 1, 1, 9),
        Err(DaoError::WrongTaskPriority)
    );
    assert_eq!(dao.get_number_of_tasks(), 0);
    assert_eq!(dao.create_project_task(bob(), 0, 1, text("T"), bob(), bob(), 1, 1, 1), Ok(()));
    assert_eq!(dao.get_project_task_ids(1), vec![1]);
    assert_eq!(dao.get_member_task_ids(bob()), vec![1]);
}

#[test]
fn queries_default_out_of_range() {
    let mut dao = init_contract();
    assert!(dao.create_project(alice(), text("P")).is_ok());
    assert!(dao.join_project(alice(), 1).is_ok());
    assert_eq!(dao.get_project_members(0), vec![]);
    assert_eq!(dao.get_project_members(2), vec![]);
    assert_eq!(dao.get_project_members(1), vec![alice()]);
    let v = dao.get_proposal_vote(0);
    assert_eq!(v.vote_status, VoteStatus::NotAvailable);
    assert_eq!((v.yes_votes, v.no_votes, v.start, v.end), (0, 0, 0, 0));
    assert_eq!(dao.get_current_vote_count(3), (0, 0));
    let t = dao.get_task(1);
    assert_eq!(t.priority, TaskPriority::NoPriority);
    assert_eq!(t.assignee, AccountId::zero());
    assert_eq!(t.description, "");
    assert_eq!(dao.get_project(2).creator, AccountId::zero());
    assert_eq!(dao.get_project(1).creator, alice());
    assert_eq!(dao.get_project(1).description, "P");
    assert_eq!(dao.get_proposal(1).description, "");
    assert_eq!(dao.get_project_task_ids(5), Vec::<u32>::new());
    assert_eq!(dao.get_member_task_ids(bob()), Vec::<u32>::new());
    assert_eq!(dao.get_member_proposal_ids(bob()), Vec::<u32>::new());
    assert_eq!(dao.get_member_points(bob()), 0);
    assert!(dao.project_exists(1));
    assert!(!dao.project_exists(2));
    assert!(!dao.proposal_exists(1));
    assert!(!dao.task_exists(1));
}

#[test]
fn events_are_recorded() {
    let mut dao = init_contract();
    assert!(dao.add_member(alice(), bob()).is_ok());
    assert!(dao.create_project(bob(), text("P")).is_ok());
    assert!(dao.create_proposal(bob(), 0, text("Q"), 1).is_ok());
    assert!(dao.create_task(bob(), 0, text("T"), bob(), bob(), 1, 1, 1).is_ok());
    assert!(dao.vote(bob(), 0, 1, true).is_ok());
    let events = dao.take_events();
    assert_eq!(
        events,
        vec![
            DaoEvent::MemberAdded(MemberAdded { member: bob(), member_id: 2 }),
            DaoEvent::ProjectCreated(ProjectCreated { creator: bob(), project_id: 1 }),
            DaoEvent::ProposalCreated(ProposalCreated { creator: bob(), proposal_id: 1 }),
            DaoEvent::TaskCreated(TaskCreated { creator: bob(), task_id: 1 }),
        ]
    );
    assert!(dao.take_events().is_empty());
}

#[test]
fn account_equality() {
    assert_eq!(alice(), AccountId::from_bytes([1; 32]));
    assert_ne!(alice(), bob());
    let mut b = [1u8; 32];
    b[31] = 2;
    assert_ne!(alice(), AccountId::from_bytes(b));
}

#[test]
fn full_scenario() {
    let mut dao = init_contract();
    assert!(dao.add_member(alice(), bob()).is_ok());
    assert!(dao.add_member(alice(), charlie()).is_ok());
    assert_eq!(dao.get_number_of_members(), 3);
    assert!(dao.create_project(bob(), text("P1")).is_ok());
    assert_eq!(dao.get_number_of_projects(), 1);
    assert!(dao.join_project(bob(), 1).is_ok());
    assert!(dao.join_project(alice(), 1).is_ok());
    assert!(dao.join_project(charlie(), 1).is_ok());
    assert!(dao
        .create_project_task(bob(), 0, 1, text("Do it"), charlie(), alice(), 1_000_000, 100, 1)
        .is_ok());
    assert_eq!(dao.get_number_of_project_tasks(1), 1);
    let id = dao.get_number_of_tasks();
    assert!(dao.get_member_task_ids(charlie()).contains(&id));
    assert!(dao.start_task(charlie(), id).is_ok());
    assert_eq!(dao.get_task(id).status, TaskStatus::InProgress);
    assert!(dao.submit_task(charlie(), id).is_ok());
    assert!(dao.review_task(alice(), id, text("ok"), 100).is_ok());
    assert_eq!(dao.get_task(id).status, TaskStatus::Done);
    assert_eq!(dao.get_member_points(charlie()), 100);
}

#[test]
fn ownable_error_converts() {
    assert_eq!(
        DaoError::from(OwnableError::CallerIsNotOwner),
        DaoError::OwnableError(OwnableError::CallerIsNotOwner)
    );
}

#[test]
fn project_membership_query() {
    let mut dao = init_contract();
    assert!(dao.add_member(alice(), bob()).is_ok());
    assert!(!dao.is_project_member(1, &bob()));
    assert!(dao.join_project(bob(), 1).is_ok());
    assert!(dao.is_project_member(1, &bob()));
    assert!(!dao.is_project_member(1, &alice()));
    assert!(!dao.is_project_member(2, &bob()));
}
