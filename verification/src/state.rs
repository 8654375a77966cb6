use crate::account::Account;
use crate::error::TokenError;
use crate::ledger::LedgerState;
use crate::mint::mintable_amount;
use crate::roles::{Role, RoleTable};
use vstd::prelude::*;

verus! {

/// The token's state: the role table, the allowlist and the ledger.
pub struct TokenState {
    pub roles: RoleTable,
    pub allowlist: Set<Account>,
    pub ledger: LedgerState,
}

impl TokenState {
    /// The state right after construction: `admin` administers the token, is
    /// on the allowlist and holds the whole initial supply; `manager` holds
    /// the manager role.
    pub open spec fn constructed(
        admin: Account,
        manager: Account,
        initial_supply: int,
    ) -> TokenState {
        TokenState {
            roles: RoleTable {
                admin,
                grants: Set::<(Role, Account)>::empty().insert((Role::manager(), manager)),
            },
            allowlist: Set::<Account>::empty().insert(admin),
            ledger: LedgerState::empty().mint(admin, initial_supply),
        }
    }

    /// Why a public mint of `amount` to `to` is refused, if it is.
    pub open spec fn mint_rwa_tokens_error(
        self,
        auth: Set<Account>,
        to: Account,
        amount: int,
    ) -> Option<TokenError> {
        if !auth.contains(to) {
            Some(TokenError::AuthorizationError)
        } else if !mintable_amount(amount) {
            Some(TokenError::InvalidAmount)
        } else {
            self.ledger.mint_error(amount)
        }
    }

    /// The state after a public mint: `to` is on the allowlist and holds
    /// `amount` more; nothing else differs.
    pub open spec fn mint_rwa_tokens(self, to: Account, amount: int) -> TokenState {
        TokenState {
            allowlist: self.allowlist.insert(to),
            ledger: self.ledger.mint(to, amount),
            ..self
        }
    }

    /// Why a transfer is refused, if it is. The allowlist is asked about the
    /// destination only.
    pub open spec fn transfer_error(
        self,
        auth: Set<Account>,
        from: Account,
        to: Account,
        amount: int,
    ) -> Option<TokenError> {
        self.ledger.transfer_error(auth, self.allowlist, from, to, amount)
    }

    /// Why a transfer on behalf is refused, if it is. The allowlist is asked
    /// about the destination only.
    pub open spec fn transfer_from_error(
        self,
        auth: Set<Account>,
        spender: Account,
        from: Account,
        to: Account,
        amount: int,
    ) -> Option<TokenError> {
        self.ledger.transfer_from_error(auth, self.allowlist, spender, from, to, amount)
    }

    /// Why `operator` may not change the allowlist, if it may not.
    pub open spec fn manage_error(
        self,
        auth: Set<Account>,
        operator: Account,
    ) -> Option<TokenError> {
        self.roles.role_error(auth, operator, Role::manager())
    }

    /// The state after a transfer: only the two balances differ.
    pub open spec fn transfer(self, from: Account, to: Account, amount: int) -> TokenState {
        TokenState { ledger: self.ledger.transfer(from, to, amount), ..self }
    }

    /// The state after a transfer on behalf: the allowance is used up by
    /// `amount` and the two balances differ.
    pub open spec fn transfer_from(
        self,
        spender: Account,
        from: Account,
        to: Account,
        amount: int,
    ) -> TokenState {
        TokenState {
            ledger: self.ledger.spend(from, spender, amount).transfer(from, to, amount),
            ..self
        }
    }

    /// The state after `owner` allowed `spender` exactly `amount`.
    pub open spec fn approve(self, owner: Account, spender: Account, amount: int) -> TokenState {
        TokenState { ledger: self.ledger.approve(owner, spender, amount), ..self }
    }

    /// The state after `from` burned `amount`.
    pub open spec fn burn(self, from: Account, amount: int) -> TokenState {
        TokenState { ledger: self.ledger.burn(from, amount), ..self }
    }

    /// The state after `spender` burned `amount` of `from`'s holdings.
    pub open spec fn burn_from(self, spender: Account, from: Account, amount: int) -> TokenState {
        TokenState { ledger: self.ledger.spend(from, spender, amount).burn(from, amount), ..self }
    }

    /// The state with `user` on the allowlist.
    pub open spec fn allow_user(self, user: Account) -> TokenState {
        TokenState { allowlist: self.allowlist.insert(user), ..self }
    }

    /// The state with `user` off the allowlist.
    pub open spec fn disallow_user(self, user: Account) -> TokenState {
        TokenState { allowlist: self.allowlist.remove(user), ..self }
    }

    /// The state with `account` holding `role`.
    pub open spec fn grant_role(self, account: Account, role: Role) -> TokenState {
        TokenState { roles: self.roles.grant(account, role), ..self }
    }

    /// The state with `account` not holding `role`.
    pub open spec fn revoke_role(self, account: Account, role: Role) -> TokenState {
        TokenState { roles: self.roles.revoke(account, role), ..self }
    }

    /// The state with `new_admin` as administrator.
    pub open spec fn transfer_admin_role(self, new_admin: Account) -> TokenState {
        TokenState { roles: self.roles.with_admin(new_admin), ..self }
    }

    /// Why `call` is refused in this state, if it is.
    pub open spec fn error_of(self, call: Call) -> Option<TokenError> {
        match call {
            Call::MintRwaTokens { auth, to, amount } => self.mint_rwa_tokens_error(
                auth,
                to,
                amount,
            ),
            Call::Transfer { auth, from, to, amount } => self.transfer_error(
                auth,
                from,
                to,
                amount,
            ),
            Call::TransferFrom { auth, spender, from, to, amount } => self.transfer_from_error(
                auth,
                spender,
                from,
                to,
                amount,
            ),
            Call::Approve { auth, owner, spender, amount } => self.ledger.approve_error(
                auth,
                owner,
                amount,
            ),
            Call::Burn { auth, from, amount } => self.ledger.burn_error(auth, from, amount),
            Call::BurnFrom { auth, spender, from, amount } => self.ledger.burn_from_error(
                auth,
                spender,
                from,
                amount,
            ),
            Call::AllowUser { auth, user, operator } => self.manage_error(auth, operator),
            Call::DisallowUser { auth, user, operator } => self.manage_error(auth, operator),
            Call::GrantRole { auth, account, role } => self.roles.admin_error(auth),
            Call::RevokeRole { auth, account, role } => self.roles.admin_error(auth),
            Call::TransferAdminRole { auth, new_admin } => self.roles.admin_error(auth),
        }
    }

    /// The state that `call` leaves where it is not refused.
    pub open spec fn effect_of(self, call: Call) -> TokenState {
        match call {
            Call::MintRwaTokens { auth, to, amount } => self.mint_rwa_tokens(to, amount),
            Call::Transfer { auth, from, to, amount } => self.transfer(from, to, amount),
            Call::TransferFrom { auth, spender, from, to, amount } => self.transfer_from(
                spender,
                from,
                to,
                amount,
            ),
            Call::Approve { auth, owner, spender, amount } => self.approve(owner, spender, amount),
            Call::Burn { auth, from, amount } => self.burn(from, amount),
            Call::BurnFrom { auth, spender, from, amount } => self.burn_from(spender, from, amount),
            Call::AllowUser { auth, user, operator } => self.allow_user(user),
            Call::DisallowUser { auth, user, operator } => self.disallow_user(user),
            Call::GrantRole { auth, account, role } => self.grant_role(account, role),
            Call::RevokeRole { auth, account, role } => self.revoke_role(account, role),
            Call::TransferAdminRole { auth, new_admin } => self.transfer_admin_role(new_admin),
        }
    }

    /// The state after `call`: its effect where it is accepted, the state as
    /// it was where it is refused.
    pub open spec fn step(self, call: Call) -> TokenState {
        if self.error_of(call) is None {
            self.effect_of(call)
        } else {
            self
        }
    }

    /// The state after `calls`, made one after the other.
    pub open spec fn run(self, calls: Seq<Call>) -> TokenState
        decreases calls.len(),
    {
        if calls.len() == 0 {
            self
        } else {
            self.run(calls.drop_last()).step(calls.last())
        }
    }
}

/// One call of a state-changing entry point, with the accounts that
/// authorized it.
pub enum Call {
    MintRwaTokens { auth: Set<Account>, to: Account, amount: int },
    Transfer { auth: Set<Account>, from: Account, to: Account, amount: int },
    TransferFrom { auth: Set<Account>, spender: Account, from: Account, to: Account, amount: int },
    Approve { auth: Set<Account>, owner: Account, spender: Account, amount: int },
    Burn { auth: Set<Account>, from: Account, amount: int },
    BurnFrom { auth: Set<Account>, spender: Account, from: Account, amount: int },
    AllowUser { auth: Set<Account>, user: Account, operator: Account },
    DisallowUser { auth: Set<Account>, user: Account, operator: Account },
    GrantRole { auth: Set<Account>, account: Account, role: Role },
    RevokeRole { auth: Set<Account>, account: Account, role: Role },
    TransferAdminRole { auth: Set<Account>, new_admin: Account },
}

} // verus!
