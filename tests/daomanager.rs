use toyota_dao::{AccountId, DaoContract, DaoManagerContract, DaoManagerError, OwnableError};

fn alice() -> AccountId {
    AccountId::from_bytes([1; 32])
}

fn bob() -> AccountId {
    AccountId::from_bytes([2; 32])
}

fn token_address() -> AccountId {
    AccountId::from_bytes([0x10; 32])
}

fn init_contract() -> DaoManagerContract {
    DaoManagerContract::new(alice(), token_address())
}

#[test]
fn manager_new_works() {
    let daomanager = init_contract();
    assert_eq!(daomanager.get_token(), token_address());
    assert_eq!(daomanager.get_number_of_daos(), 0);
    assert!(daomanager.get_members().is_empty());
}

#[test]
fn set_token_owner_only() {
    let mut m = init_contract();
    let other = AccountId::from_bytes([0x20; 32]);
    assert_eq!(
        m.set_token(bob(), other),
        Err(DaoManagerError::OwnableError(OwnableError::CallerIsNotOwner))
    );
    assert_eq!(m.get_token(), token_address());
    assert_eq!(m.set_token(alice(), other), Ok(()));
    assert_eq!(m.get_token(), other);
}

#[test]
fn register_checks() {
    let mut m = init_contract();
    assert_eq!(m.register(bob(), 0), Err(DaoManagerError::NotEligible));
    assert_eq!(m.register(bob(), 1), Ok(()));
    assert_eq!(m.register(bob(), 1), Err(DaoManagerError::AlreadyAMember));
    assert_eq!(m.get_members(), vec![bob()]);
    assert!(m.check_membership(bob()));
    assert!(!m.check_membership(alice()));
}

#[test]
fn add_dao_checks() {
    let mut m = init_contract();
    let dao = DaoContract::new(alice(), token_address(), Vec::new());
    let other = DaoContract::new(alice(), AccountId::from_bytes([0x11; 32]), Vec::new());
    let dao_addr = AccountId::from_bytes([0x30; 32]);
    let other_addr = AccountId::from_bytes([0x31; 32]);
    assert_eq!(m.add_dao(bob(), dao_addr, dao.get_token_address()), Err(DaoManagerError::NotAMember));
    assert_eq!(m.register(bob(), 3), Ok(()));
    assert_eq!(
        m.add_dao(bob(), other_addr, other.get_token_address()),
        Err(DaoManagerError::WrongToken)
    );
    assert_eq!(m.add_dao(bob(), dao_addr, dao.get_token_address()), Ok(()));
    assert_eq!(m.add_dao(bob(), dao_addr, dao.get_token_address()), Err(DaoManagerError::DAOExists));
    assert_eq!(m.get_daos(), vec![dao_addr]);
    assert_eq!(m.get_number_of_daos(), 1);
}
