use crate::account::{Account, Authorization};
use crate::error::TokenError;
use crate::pairing::{make_pair_key, pair_key};
use std::collections::HashSet;
use vstd::prelude::*;

verus! {

/// The tag of the role whose members curate the allowlist.
pub const MANAGER_ROLE_ID: u64 = 1;

/// The name under which hosts that name roles by text know the manager role.
pub const MANAGER_ROLE_NAME: &'static str = "manager";

/// A named capability group. A role may have no member, one or many.
#[derive(Clone, Copy, Debug, PartialEq, Eq, Hash, Structural)]
pub struct Role {
    pub id: u64,
}

impl Role {
    pub fn new(id: u64) -> (role: Role)
        ensures
            role.id == id,
    {
        Role { id }
    }

    /// The role whose members curate the allowlist.
    pub open spec fn spec_manager() -> Role {
        Role { id: MANAGER_ROLE_ID }
    }

    /// The role whose members curate the allowlist.
    #[verifier::when_used_as_spec(spec_manager)]
    pub fn manager() -> (role: Role)
        ensures
            role == Role::spec_manager(),
    {
        Role { id: MANAGER_ROLE_ID }
    }
}

/// Who administers the token and who holds which role.
pub struct RoleTable {
    /// The one root administrator.
    pub admin: Account,
    /// `(role, account)` is in it where `account` holds `role`.
    pub grants: Set<(Role, Account)>,
}

impl RoleTable {
    pub open spec fn has_role(self, account: Account, role: Role) -> bool {
        self.grants.contains((role, account))
    }

    /// `account` holds `role`, whether it did before or not.
    pub open spec fn grant(self, account: Account, role: Role) -> RoleTable {
        RoleTable { grants: self.grants.insert((role, account)), ..self }
    }

    /// `account` does not hold `role`, whether it did before or not.
    pub open spec fn revoke(self, account: Account, role: Role) -> RoleTable {
        RoleTable { grants: self.grants.remove((role, account)), ..self }
    }

    /// `new_admin` is the administrator.
    pub open spec fn with_admin(self, new_admin: Account) -> RoleTable {
        RoleTable { admin: new_admin, ..self }
    }

    /// Why a call that only the administrator may make is refused, if it is:
    /// the administrator did not authorize it.
    pub open spec fn admin_error(self, auth: Set<Account>) -> Option<TokenError> {
        if !auth.contains(self.admin) {
            Some(TokenError::AuthorizationError)
        } else {
            None
        }
    }

    /// Why a call that `operator` makes in `role` is refused, if it is:
    /// `operator` does not hold the role, or did not authorize the call.
    pub open spec fn role_error(
        self,
        auth: Set<Account>,
        operator: Account,
        role: Role,
    ) -> Option<TokenError> {
        if !self.has_role(operator, role) || !auth.contains(operator) {
            Some(TokenError::AuthorizationError)
        } else {
            None
        }
    }
}

/// The role grants that a set of pair keys of role and account records.
pub open spec fn grants_of(keys: Set<u128>) -> Set<(Role, Account)> {
    Set::new(|g: (Role, Account)| keys.contains(pair_key(g.0.id, g.1.id)))
}

/// The administrator and the role grants.
#[derive(Debug)]
pub struct RoleStore {
    admin: Account,
    grants: HashSet<u128>,
}

impl RoleStore {
    pub closed spec fn view(&self) -> RoleTable {
        RoleTable { admin: self.admin, grants: grants_of(self.grants@) }
    }

    /// The role table of a token at deployment: `admin` administers it and
    /// `manager` holds the manager role. The manager is not asked for its
    /// authorization: the administrator vouches for it, this once. Every
    /// later grant goes through [`RoleStore::grant_role`].
    pub fn bootstrap(admin: Account, manager: Account) -> (store: RoleStore)
        ensures
            store@.admin == admin,
            store@.grants == Set::<(Role, Account)>::empty().insert((Role::manager(), manager)),
    {
        let mut grants: HashSet<u128> = HashSet::new();
        grants.insert(make_pair_key(MANAGER_ROLE_ID, manager.id));
        let store = RoleStore { admin, grants };
        assert(store@.grants =~= Set::<(Role, Account)>::empty().insert(
            (Role::manager(), manager),
        ));
        store
    }

    /// The administrator.
    pub fn get_admin(&self) -> (admin: Account)
        ensures
            admin == self@.admin,
    {
        self.admin
    }

    /// Whether `account` holds `role`.
    pub fn has_role(&self, account: Account, role: Role) -> (held: bool)
        ensures
            held == self@.has_role(account, role),
    {
        let key: u128 = make_pair_key(role.id, account.id);
        self.grants.contains(&key)
    }

    /// Checks that `operator` holds `role` and authorized the call.
    pub fn ensure_role(
        &self,
        auth: &Authorization,
        operator: Account,
        role: Role,
    ) -> (result: Result<(), TokenError>)
        ensures
            match result {
                Ok(()) => self@.role_error(auth@, operator, role) is None,
                Err(e) => self@.role_error(auth@, operator, role) == Some(e),
            },
    {
        if !self.has_role(operator, role) {
            return Err(TokenError::AuthorizationError);
        }
        if !auth.covers(operator) {
            return Err(TokenError::AuthorizationError);
        }
        Ok(())
    }

    /// Checks that the administrator authorized the call.
    pub fn ensure_admin(&self, auth: &Authorization) -> (result: Result<(), TokenError>)
        ensures
            match result {
                Ok(()) => self@.admin_error(auth@) is None,
                Err(e) => self@.admin_error(auth@) == Some(e),
            },
    {
        if !auth.covers(self.admin) {
            return Err(TokenError::AuthorizationError);
        }
        Ok(())
    }

    /// Gives `role` to `account`, on the administrator's authorization.
    /// Granting a role that is held already changes nothing.
    pub fn grant_role(
        &mut self,
        auth: &Authorization,
        account: Account,
        role: Role,
    ) -> (result: Result<(), TokenError>)
        ensures
            match result {
                Ok(()) => {
                    &&& old(self)@.admin_error(auth@) is None
                    &&& final(self)@ == old(self)@.grant(account, role)
                },
                Err(e) => {
                    &&& old(self)@.admin_error(auth@) == Some(e)
                    &&& final(self)@ == old(self)@
                },
            },
    {
        match self.ensure_admin(auth) {
            Ok(()) => {},
            Err(e) => {
                return Err(e);
            },
        }
        self.grants.insert(make_pair_key(role.id, account.id));
        assert(self@.grants =~= old(self)@.grants.insert((role, account)));
        Ok(())
    }

    /// Takes `role` from `account`, on the administrator's authorization.
    /// Revoking a role that is not held changes nothing.
    pub fn revoke_role(
        &mut self,
        auth: &Authorization,
        account: Account,
        role: Role,
    ) -> (result: Result<(), TokenError>)
        ensures
            match result {
                Ok(()) => {
                    &&& old(self)@.admin_error(auth@) is None
                    &&& final(self)@ == old(self)@.revoke(account, role)
                },
                Err(e) => {
                    &&& old(self)@.admin_error(auth@) == Some(e)
                    &&& final(self)@ == old(self)@
                },
            },
    {
        match self.ensure_admin(auth) {
            Ok(()) => {},
            Err(e) => {
                return Err(e);
            },
        }
        let key: u128 = make_pair_key(role.id, account.id);
        self.grants.remove(&key);
        assert(self@.grants =~= old(self)@.grants.remove((role, account)));
        Ok(())
    }

    /// Hands the administration to `new_admin`, on the authorization of the
    /// administrator in office.
    pub fn transfer_admin_role(
        &mut self,
        auth: &Authorization,
        new_admin: Account,
    ) -> (result: Result<(), TokenError>)
        ensures
            match result {
                Ok(()) => {
                    &&& old(self)@.admin_error(auth@) is None
                    &&& final(self)@ == old(self)@.with_admin(new_admin)
                },
                Err(e) => {
                    &&& old(self)@.admin_error(auth@) == Some(e)
                    &&& final(self)@ == old(self)@
                },
            },
    {
        match self.ensure_admin(auth) {
            Ok(()) => {},
            Err(e) => {
                return Err(e);
            },
        }
        self.admin = new_admin;
        Ok(())
    }
}

} // verus!
