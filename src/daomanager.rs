use vstd::prelude::*;
use crate::account::{AccountId, account_views, contains_account, copy_accounts};
use crate::dao_types::{Balance, OwnableError};

verus! {

pub type DaoId = u32;
pub type MemberId = u32;

#[derive(Clone, Copy, Debug, PartialEq, Eq, Structural)]
pub enum DaoManagerError {
    /// Caller is not the owner.
    OwnableError(OwnableError),
    NotEligible,
    AlreadyAMember,
    NotAMember,
    WrongToken,
    DAOExists,
}

impl From<OwnableError> for DaoManagerError {
    fn from(error: OwnableError) -> (r: DaoManagerError) {
        DaoManagerError::OwnableError(error)
    }
}

impl vstd::std_specs::convert::FromSpecImpl<OwnableError> for DaoManagerError {
    open spec fn obeys_from_spec() -> bool {
        true
    }

    open spec fn from_spec(error: OwnableError) -> DaoManagerError {
        DaoManagerError::OwnableError(error)
    }
}

/// The registry's state: the designated token, the accepted DAOs and the
/// registered members, each with a saturating counter.
#[derive(Debug)]
pub struct Data {
    pub token: AccountId,
    pub daos: Vec<AccountId>,
    pub members: Vec<AccountId>,
    pub dao_id: DaoId,
    pub member_id: MemberId,
}

/// A registry of DAOs that share one eligibility token.
///
/// Operations take the calling account, and the answers of outside
/// contracts (a token balance, a DAO's token), from the caller of the library.
#[derive(Debug)]
pub struct DaoManagerContract {
    pub owner: AccountId,
    pub data: Data,
}

impl DaoManagerContract {
    pub open spec fn is_member_spec(&self, a: Seq<u8>) -> bool {
        account_views(self.data.members@).contains(a)
    }

    pub open spec fn dao_exists_spec(&self, dao: Seq<u8>) -> bool {
        account_views(self.data.daos@).contains(dao)
    }

    /// A registry for `token`, owned by `caller`, with no member and no DAO.
    pub fn new(caller: AccountId, token: AccountId) -> (r: DaoManagerContract)
        ensures
            r.owner == caller,
            r.data.token == token,
            r.data.daos@.len() == 0,
            r.data.members@.len() == 0,
            r.data.dao_id == 0,
            r.data.member_id == 0,
    {
        DaoManagerContract {
            owner: caller,
            data: Data { token, daos: Vec::new(), members: Vec::new(), dao_id: 0, member_id: 0 },
        }
    }

    /// What `set_token` does, from `pre` to `post`, with result `r`.
    pub open spec fn set_token_post(
        pre: DaoManagerContract,
        post: DaoManagerContract,
        caller: AccountId,
        token: AccountId,
        r: Result<(), DaoManagerError>,
    ) -> bool {
        &&& r is Ok <==> caller@ == pre.owner@
        &&& r is Err ==> r == Err::<(), DaoManagerError>(
            DaoManagerError::OwnableError(OwnableError::CallerIsNotOwner),
        ) && post == pre
        &&& r is Ok ==> post == (DaoManagerContract {
                data: Data { token, ..pre.data },
                ..pre
        })
    }

    /// The owner replaces the designated token.
    pub fn set_token(&mut self, caller: AccountId, token: AccountId) -> (r: Result<(), DaoManagerError>)
        ensures
            Self::set_token_post(*old(self), *final(self), caller, token, r),
    {
        if !(caller == self.owner) {
            return Err(DaoManagerError::from(OwnableError::CallerIsNotOwner));
        }
        self.data.token = token;
        Ok(())
    }

    pub fn get_number_of_daos(&self) -> (r: DaoId)
        ensures
            r == self.data.dao_id,
    {
        self.data.dao_id
    }

    /// What `add_dao` does, from `pre` to `post`, with result `r`.
    pub open spec fn add_dao_post(
        pre: DaoManagerContract,
        post: DaoManagerContract,
        caller: AccountId,
        dao: AccountId,
        dao_token: AccountId,
        r: Result<(), DaoManagerError>,
    ) -> bool {
        &&& !pre.is_member_spec(caller@) ==> r == Err::<(), DaoManagerError>(
            DaoManagerError::NotAMember,
        )
        &&& pre.is_member_spec(caller@) && dao_token@ != pre.data.token@ ==> r == Err::<(), DaoManagerError>(DaoManagerError::WrongToken)
        &&& pre.is_member_spec(caller@) && dao_token@ == pre.data.token@ && pre.dao_exists_spec(dao@) ==> r == Err::<(), DaoManagerError>(DaoManagerError::DAOExists)
        &&& r is Ok <==> {
            &&& pre.is_member_spec(caller@)
            &&& dao_token@ == pre.data.token@
            &&& !pre.dao_exists_spec(dao@)
        }
        &&& r is Err ==> post == pre
        &&& r is Ok ==> {
            &&& post.data.daos@ == pre.data.daos@.push(dao)
            &&& post.data.dao_id == pre.data.dao_id.saturating_add(1)
            &&& post.data == (Data {
                    daos: post.data.daos,
                    dao_id: post.data.dao_id,
                    ..pre.data
            })
            &&& post.owner == pre.owner
        }
    }

    /// A registered member adds the DAO at `dao`; `dao_token` is what that
    /// DAO answers to `get_token_address`.
    pub fn add_dao(&mut self, caller: AccountId, dao: AccountId, dao_token: AccountId) -> (r: Result<
        (),
        DaoManagerError,
    >)
        ensures
            Self::add_dao_post(*old(self), *final(self), caller, dao, dao_token, r),
    {
        if !self.is_member(&caller) {
            return Err(DaoManagerError::NotAMember);
        }
        if !self.check_token(&dao_token) {
            return Err(DaoManagerError::WrongToken);
        }
        if self.dao_exists(&dao) {
            return Err(DaoManagerError::DAOExists);
        }
        let dao_id = self.data.dao_id.saturating_add(1);
        self.data.dao_id = dao_id;
        self.data.daos.push(dao);
        Ok(())
    }

    /// What `register` does, from `pre` to `post`, with result `r`.
    pub open spec fn register_post(
        pre: DaoManagerContract,
        post: DaoManagerContract,
        caller: AccountId,
        balance: Balance,
        r: Result<(), DaoManagerError>,
    ) -> bool {
        &&& balance == 0 ==> r == Err::<(), DaoManagerError>(DaoManagerError::NotEligible)
        &&& balance > 0 && pre.is_member_spec(caller@) ==> r == Err::<(), DaoManagerError>(
            DaoManagerError::AlreadyAMember,
        )
        &&& r is Ok <==> balance > 0 && !pre.is_member_spec(caller@)
        &&& r is Err ==> post == pre
        &&& r is Ok ==> {
            &&& post.data.members@ == pre.data.members@.push(caller)
            &&& post.data.member_id == pre.data.member_id.saturating_add(1)
            &&& post.data == (Data {
                    members: post.data.members,
                    member_id: post.data.member_id,
                    ..pre.data
            })
            &&& post.owner == pre.owner
        }
    }

    /// `caller` registers itself; `balance` is what the designated token
    /// reports that `caller` holds.
    pub fn register(&mut self, caller: AccountId, balance: Balance) -> (r: Result<(), DaoManagerError>)
        ensures
            Self::register_post(*old(self), *final(self), caller, balance, r),
    {
        if !Self::check_eligible(balance) {
            return Err(DaoManagerError::NotEligible);
        }
        if self.is_member(&caller) {
            return Err(DaoManagerError::AlreadyAMember);
        }
        let member_id = self.data.member_id.saturating_add(1);
        self.data.member_id = member_id;
        self.data.members.push(caller);
        Ok(())
    }

    pub fn get_token(&self) -> (r: AccountId)
        ensures
            r == self.data.token,
    {
        self.data.token
    }

    pub fn get_daos(&self) -> (r: Vec<AccountId>)
        ensures
            r@ == self.data.daos@,
    {
        copy_accounts(&self.data.daos)
    }

    pub fn get_members(&self) -> (r: Vec<AccountId>)
        ensures
            r@ == self.data.members@,
    {
        copy_accounts(&self.data.members)
    }

    pub fn check_membership(&self, account: AccountId) -> (r: bool)
        ensures
            r == self.is_member_spec(account@),
    {
        self.is_member(&account)
    }

    pub fn is_member(&self, account: &AccountId) -> (r: bool)
        ensures
            r == self.is_member_spec(account@),
    {
        contains_account(&self.data.members, account)
    }

    /// Whether `token` is the designated token.
    pub fn check_token(&self, token: &AccountId) -> (r: bool)
        ensures
            r == (token@ == self.data.token@),
    {
        *token == self.data.token
    }

    /// Whether a balance of the designated token makes its holder eligible.
    pub fn check_eligible(balance: Balance) -> (r: bool)
        ensures
            r == (balance > 0),
    {
        balance > 0
    }

    pub fn dao_exists(&self, dao: &AccountId) -> (r: bool)
        ensures
            r == self.dao_exists_spec(dao@),
    {
        contains_account(&self.data.daos, dao)
    }
}

} // verus!
