use crate::account::{Account, Authorization};
use crate::allowlist::AllowList;
use crate::error::TokenError;
use crate::ledger::Ledger;
use crate::metadata::{TokenMetadata, DECIMALS, NAME, SYMBOL};
use crate::mint::{validate_mint_amount, MintEvent};
use crate::roles::{Role, RoleStore};
use crate::state::{Call, TokenState};
use vstd::prelude::*;

verus! {

/// A token that only accounts on an allowlist may receive. Managers curate
/// the list; anyone may mint to themselves up to a ceiling, and is put on
/// the list by doing so.
#[derive(Debug)]
pub struct MockRwaToken {
    metadata: TokenMetadata,
    roles: RoleStore,
    allowlist: AllowList,
    ledger: Ledger,
}

impl MockRwaToken {
    /// The token's state.
    pub closed spec fn view(&self) -> TokenState {
        TokenState { roles: self.roles@, allowlist: self.allowlist@, ledger: self.ledger@ }
    }

    /// The metadata that the token carries.
    pub closed spec fn metadata(&self) -> TokenMetadata {
        self.metadata
    }

    /// The ledger's holdings add up to the total supply and none is
    /// negative, and the metadata is as construction set it.
    pub open spec fn wf(&self) -> bool {
        &&& self@.ledger.valid()
        &&& self.metadata() == TokenMetadata::fixed()
    }

    /// Deploys the token: sets the metadata, makes `admin` the administrator,
    /// gives `manager` the manager role without asking for its authorization,
    /// puts `admin` on the allowlist and mints `initial_supply` to it. All of
    /// it or none: a negative supply is refused and no token comes to be.
    pub fn __constructor(
        admin: Account,
        manager: Account,
        initial_supply: i128,
    ) -> (result: Result<MockRwaToken, TokenError>)
        ensures
            match result {
                Ok(token) => {
                    &&& initial_supply >= 0
                    &&& token.wf()
                    &&& token@ == TokenState::constructed(admin, manager, initial_supply as int)
                },
                Err(e) => initial_supply < 0 && e == TokenError::InvalidAmount,
            },
    {
        let metadata = TokenMetadata::fixed();
        let roles = RoleStore::bootstrap(admin, manager);
        let mut allowlist = AllowList::new();
        allowlist.allow_user(admin);
        let mut ledger = Ledger::new();
        match ledger.mint(admin, initial_supply) {
            Ok(()) => Ok(MockRwaToken { metadata, roles, allowlist, ledger }),
            Err(e) => Err(e),
        }
    }

    /// Mints `amount` to `to` on `to`'s own authorization, and puts `to` on
    /// the allowlist if it is not there. Returns the event to emit.
    pub fn mint_rwa_tokens(
        &mut self,
        auth: &Authorization,
        to: Account,
        amount: i128,
    ) -> (result: Result<MintEvent, TokenError>)
        requires
            old(self).wf(),
        ensures
            final(self).wf(),
            final(self)@ == old(self)@.step(
                Call::MintRwaTokens { auth: auth@, to, amount: amount as int },
            ),
            match result {
                Ok(event) => {
                    &&& old(self)@.mint_rwa_tokens_error(auth@, to, amount as int) is None
                    &&& final(self)@ == old(self)@.mint_rwa_tokens(to, amount as int)
                    &&& event == (MintEvent { to, amount })
                },
                Err(e) => {
                    &&& old(self)@.mint_rwa_tokens_error(auth@, to, amount as int) == Some(e)
                    &&& final(self)@ == old(self)@
                },
            },
    {
        if !auth.covers(to) {
            return Err(TokenError::AuthorizationError);
        }
        match validate_mint_amount(amount) {
            Ok(()) => {},
            Err(e) => {
                return Err(e);
            },
        }
        match self.ledger.check_mint(amount) {
            Ok(()) => {},
            Err(e) => {
                return Err(e);
            },
        }
        if !self.allowlist.allowed(to) {
            self.allowlist.allow_user(to);
        }
        assert(self.allowlist@ =~= old(self).allowlist@.insert(to));
        match self.ledger.mint(to, amount) {
            Ok(()) => Ok(MintEvent { to, amount }),
            Err(e) => Err(e),
        }
    }

    /// Moves `amount` from `from` to `to`, on `from`'s authorization. `to`
    /// must be on the allowlist; `from` need not be: what an account holds
    /// stays its own to move even after it was taken off the list.
    pub fn transfer(
        &mut self,
        auth: &Authorization,
        from: Account,
        to: Account,
        amount: i128,
    ) -> (result: Result<(), TokenError>)
        requires
            old(self).wf(),
        ensures
            final(self).wf(),
            final(self)@ == old(self)@.step(
                Call::Transfer { auth: auth@, from, to, amount: amount as int },
            ),
            match result {
                Ok(()) => {
                    &&& old(self)@.transfer_error(auth@, from, to, amount as int) is None
                    &&& final(self)@ == old(self)@.transfer(from, to, amount as int)
                },
                Err(e) => {
                    &&& old(self)@.transfer_error(auth@, from, to, amount as int) == Some(e)
                    &&& final(self)@ == old(self)@
                },
            },
    {
        self.ledger.transfer(&self.allowlist, auth, from, to, amount)
    }

    /// Moves `amount` from `from` to `to`, on `spender`'s authorization and
    /// out of what `from` allowed `spender`. `to` must be on the allowlist;
    /// `from` and `spender` need not be.
    pub fn transfer_from(
        &mut self,
        auth: &Authorization,
        spender: Account,
        from: Account,
        to: Account,
        amount: i128,
    ) -> (result: Result<(), TokenError>)
        requires
            old(self).wf(),
        ensures
            final(self).wf(),
            final(self)@ == old(self)@.step(
                Call::TransferFrom { auth: auth@, spender, from, to, amount: amount as int },
            ),
            match result {
                Ok(()) => {
                    &&& old(self)@.transfer_from_error(
                        auth@,
                        spender,
                        from,
                        to,
                        amount as int,
                    ) is None
                    &&& final(self)@ == old(self)@.transfer_from(spender, from, to, amount as int)
                },
                Err(e) => {
                    &&& old(self)@.transfer_from_error(auth@, spender, from, to, amount as int)
                        == Some(e)
                    &&& final(self)@ == old(self)@
                },
            },
    {
        self.ledger.transfer_from(&self.allowlist, auth, spender, from, to, amount)
    }

    /// Lets `spender` spend exactly `amount` of `owner`'s holdings, on
    /// `owner`'s authorization.
    pub fn approve(
        &mut self,
        auth: &Authorization,
        owner: Account,
        spender: Account,
        amount: i128,
    ) -> (result: Result<(), TokenError>)
        requires
            old(self).wf(),
        ensures
            final(self).wf(),
            final(self)@ == old(self)@.step(
                Call::Approve { auth: auth@, owner, spender, amount: amount as int },
            ),
            match result {
                Ok(()) => {
                    &&& old(self)@.ledger.approve_error(auth@, owner, amount as int) is None
                    &&& final(self)@ == old(self)@.approve(owner, spender, amount as int)
                },
                Err(e) => {
                    &&& old(self)@.ledger.approve_error(auth@, owner, amount as int) == Some(e)
                    &&& final(self)@ == old(self)@
                },
            },
    {
        self.ledger.approve(auth, owner, spender, amount)
    }

    /// Destroys `amount` of what `from` holds, on `from`'s authorization. The
    /// allowlist is not asked: taking supply away credits nobody.
    pub fn burn(
        &mut self,
        auth: &Authorization,
        from: Account,
        amount: i128,
    ) -> (result: Result<(), TokenError>)
        requires
            old(self).wf(),
        ensures
            final(self).wf(),
            final(self)@ == old(self)@.step(
                Call::Burn { auth: auth@, from, amount: amount as int },
            ),
            match result {
                Ok(()) => {
                    &&& old(self)@.ledger.burn_error(auth@, from, amount as int) is None
                    &&& final(self)@ == old(self)@.burn(from, amount as int)
                },
                Err(e) => {
                    &&& old(self)@.ledger.burn_error(auth@, from, amount as int) == Some(e)
                    &&& final(self)@ == old(self)@
                },
            },
    {
        self.ledger.burn(auth, from, amount)
    }

    /// Destroys `amount` of what `from` holds, on `spender`'s authorization
    /// and out of what `from` allowed `spender`. The allowlist is not asked.
    pub fn burn_from(
        &mut self,
        auth: &Authorization,
        spender: Account,
        from: Account,
        amount: i128,
    ) -> (result: Result<(), TokenError>)
        requires
            old(self).wf(),
        ensures
            final(self).wf(),
            final(self)@ == old(self)@.step(
                Call::BurnFrom { auth: auth@, spender, from, amount: amount as int },
            ),
            match result {
                Ok(()) => {
                    &&& old(self)@.ledger.burn_from_error(
                        auth@,
                        spender,
                        from,
                        amount as int,
                    ) is None
                    &&& final(self)@ == old(self)@.burn_from(spender, from, amount as int)
                },
                Err(e) => {
                    &&& old(self)@.ledger.burn_from_error(auth@, spender, from, amount as int)
                        == Some(e)
                    &&& final(self)@ == old(self)@
                },
            },
    {
        self.ledger.burn_from(auth, spender, from, amount)
    }

    /// Whether `account` is on the allowlist. Anyone may ask.
    pub fn allowed(&self, account: Account) -> (present: bool)
        ensures
            present == self@.allowlist.contains(account),
    {
        self.allowlist.allowed(account)
    }

    /// Puts `user` on the allowlist. `operator` must hold the manager role
    /// and have authorized the call. Allowing a user that is on the list
    /// already succeeds and changes nothing.
    pub fn allow_user(
        &mut self,
        auth: &Authorization,
        user: Account,
        operator: Account,
    ) -> (result: Result<(), TokenError>)
        requires
            old(self).wf(),
        ensures
            final(self).wf(),
            final(self)@ == old(self)@.step(
                Call::AllowUser { auth: auth@, user, operator },
            ),
            match result {
                Ok(()) => {
                    &&& old(self)@.manage_error(auth@, operator) is None
                    &&& final(self)@ == old(self)@.allow_user(user)
                },
                Err(e) => {
                    &&& old(self)@.manage_error(auth@, operator) == Some(e)
                    &&& final(self)@ == old(self)@
                },
            },
    {
        match self.roles.ensure_role(auth, operator, Role::manager()) {
            Ok(()) => {},
            Err(e) => {
                return Err(e);
            },
        }
        self.allowlist.allow_user(user);
        Ok(())
    }

    /// Takes `user` off the allowlist. `operator` must hold the manager role
    /// and have authorized the call. Disallowing a user that is not on the
    /// list succeeds and changes nothing. What `user` holds is not touched.
    pub fn disallow_user(
        &mut self,
        auth: &Authorization,
        user: Account,
        operator: Account,
    ) -> (result: Result<(), TokenError>)
        requires
            old(self).wf(),
        ensures
            final(self).wf(),
            final(self)@ == old(self)@.step(
                Call::DisallowUser { auth: auth@, user, operator },
            ),
            match result {
                Ok(()) => {
                    &&& old(self)@.manage_error(auth@, operator) is None
                    &&& final(self)@ == old(self)@.disallow_user(user)
                },
                Err(e) => {
                    &&& old(self)@.manage_error(auth@, operator) == Some(e)
                    &&& final(self)@ == old(self)@
                },
            },
    {
        match self.roles.ensure_role(auth, operator, Role::manager()) {
            Ok(()) => {},
            Err(e) => {
                return Err(e);
            },
        }
        self.allowlist.disallow_user(user);
        Ok(())
    }

    /// What `account` holds.
    pub fn balance(&self, account: Account) -> (amount: i128)
        ensures
            amount == self@.ledger.balance(account),
    {
        self.ledger.balance(account)
    }

    /// The amount of tokens in existence.
    pub fn total_supply(&self) -> (supply: i128)
        ensures
            supply == self@.ledger.total_supply,
    {
        self.ledger.total_supply()
    }

    /// What `spender` may still spend of `owner`'s holdings.
    pub fn allowance(&self, owner: Account, spender: Account) -> (amount: i128)
        ensures
            amount == self@.ledger.allowance(owner, spender),
    {
        self.ledger.allowance(owner, spender)
    }

    /// Decimal places of one whole token.
    pub fn decimals(&self) -> (decimals: u32)
        requires
            self.wf(),
        ensures
            decimals == DECIMALS,
    {
        self.metadata.decimals
    }

    /// The token's display name.
    pub fn name(&self) -> (name: &'static str)
        requires
            self.wf(),
        ensures
            name == NAME,
    {
        self.metadata.name
    }

    /// The token's symbol.
    pub fn symbol(&self) -> (symbol: &'static str)
        requires
            self.wf(),
        ensures
            symbol == SYMBOL,
    {
        self.metadata.symbol
    }

    /// The administrator.
    pub fn get_admin(&self) -> (admin: Account)
        ensures
            admin == self@.roles.admin,
    {
        self.roles.get_admin()
    }

    /// Whether `account` holds `role`.
    pub fn has_role(&self, account: Account, role: Role) -> (held: bool)
        ensures
            held == self@.roles.has_role(account, role),
    {
        self.roles.has_role(account, role)
    }

    /// Gives `role` to `account`, on the administrator's authorization.
    pub fn grant_role(
        &mut self,
        auth: &Authorization,
        account: Account,
        role: Role,
    ) -> (result: Result<(), TokenError>)
        requires
            old(self).wf(),
        ensures
            final(self).wf(),
            final(self)@ == old(self)@.step(
                Call::GrantRole { auth: auth@, account, role },
            ),
            match result {
                Ok(()) => {
                    &&& old(self)@.roles.admin_error(auth@) is None
                    &&& final(self)@ == old(self)@.grant_role(account, role)
                },
                Err(e) => {
                    &&& old(self)@.roles.admin_error(auth@) == Some(e)
                    &&& final(self)@ == old(self)@
                },
            },
    {
        self.roles.grant_role(auth, account, role)
    }

    /// Takes `role` from `account`, on the administrator's authorization.
    pub fn revoke_role(
        &mut self,
        auth: &Authorization,
        account: Account,
        role: Role,
    ) -> (result: Result<(), TokenError>)
        requires
            old(self).wf(),
        ensures
            final(self).wf(),
            final(self)@ == old(self)@.step(
                Call::RevokeRole { auth: auth@, account, role },
            ),
            match result {
                Ok(()) => {
                    &&& old(self)@.roles.admin_error(auth@) is None
                    &&& final(self)@ == old(self)@.revoke_role(account, role)
                },
                Err(e) => {
                    &&& old(self)@.roles.admin_error(auth@) == Some(e)
                    &&& final(self)@ == old(self)@
                },
            },
    {
        self.roles.revoke_role(auth, account, role)
    }

    /// Hands the administration to `new_admin`, on the authorization of the
    /// administrator in office.
    pub fn transfer_admin_role(
        &mut self,
        auth: &Authorization,
        new_admin: Account,
    ) -> (result: Result<(), TokenError>)
        requires
            old(self).wf(),
        ensures
            final(self).wf(),
            final(self)@ == old(self)@.step(
                Call::TransferAdminRole { auth: auth@, new_admin },
            ),
            match result {
                Ok(()) => {
                    &&& old(self)@.roles.admin_error(auth@) is None
                    &&& final(self)@ == old(self)@.transfer_admin_role(new_admin)
                },
                Err(e) => {
                    &&& old(self)@.roles.admin_error(auth@) == Some(e)
                    &&& final(self)@ == old(self)@
                },
            },
    {
        self.roles.transfer_admin_role(auth, new_admin)
    }
}

} // verus!
