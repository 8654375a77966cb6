use crate::account::Account;
use crate::error::TokenError;
use crate::ledger::{
    lemma_approve_keeps_valid, lemma_burn_keeps_valid, lemma_mint_keeps_valid,
    lemma_transfer_keeps_valid, LedgerState,
};
use crate::roles::Role;
use crate::state::{Call, TokenState};
use crate::tally::sum_values;
use vstd::prelude::*;

verus! {

/// Whatever the call and whether it is accepted or refused, a valid ledger
/// stays valid.
pub proof fn lemma_step_keeps_valid(state: TokenState, call: Call)
    requires
        state.ledger.valid(),
    ensures
        state.step(call).ledger.valid(),
{
    if state.error_of(call) is None {
        match call {
            Call::MintRwaTokens { auth, to, amount } => {
                lemma_mint_keeps_valid(state.ledger, to, amount);
            },
            Call::Transfer { auth, from, to, amount } => {
                lemma_transfer_keeps_valid(state.ledger, from, to, amount);
            },
            Call::TransferFrom { auth, spender, from, to, amount } => {
                let left = state.ledger.allowance(from, spender) - amount;
                lemma_approve_keeps_valid(state.ledger, from, spender, left);
                lemma_transfer_keeps_valid(
                    state.ledger.spend(from, spender, amount),
                    from,
                    to,
                    amount,
                );
            },
            Call::Approve { auth, owner, spender, amount } => {
                lemma_approve_keeps_valid(state.ledger, owner, spender, amount);
            },
            Call::Burn { auth, from, amount } => {
                lemma_burn_keeps_valid(state.ledger, from, amount);
            },
            Call::BurnFrom { auth, spender, from, amount } => {
                let left = state.ledger.allowance(from, spender) - amount;
                lemma_approve_keeps_valid(state.ledger, from, spender, left);
                lemma_burn_keeps_valid(state.ledger.spend(from, spender, amount), from, amount);
            },
            _ => {},
        }
    }
}

/// In every state that calls can reach from construction, the holdings add
/// up to the total supply, and no holding is negative.
pub proof fn theorem_supply_is_sum_of_balances(
    admin: Account,
    manager: Account,
    initial_supply: int,
    calls: Seq<Call>,
)
    requires
        0 <= initial_supply,
    ensures
        TokenState::constructed(admin, manager, initial_supply).run(calls).ledger.valid(),
        ({
            let reached = TokenState::constructed(admin, manager, initial_supply).run(calls);
            sum_values(reached.ledger.balances) == reached.ledger.total_supply
        }),
    decreases calls.len(),
{
    let start = TokenState::constructed(admin, manager, initial_supply);
    if calls.len() == 0 {
        lemma_constructed_valid(admin, manager, initial_supply);
    } else {
        theorem_supply_is_sum_of_balances(admin, manager, initial_supply, calls.drop_last());
        lemma_step_keeps_valid(start.run(calls.drop_last()), calls.last());
    }
}

/// A token constructed with a supply that is not negative has a valid
/// ledger.
pub proof fn lemma_constructed_valid(admin: Account, manager: Account, initial_supply: int)
    requires
        0 <= initial_supply,
    ensures
        TokenState::constructed(admin, manager, initial_supply).ledger.valid(),
{
    assert(LedgerState::empty().valid());
    lemma_mint_keeps_valid(LedgerState::empty(), admin, initial_supply);
}

/// A call that leaves an account with more than it held leaves that account
/// on the allowlist: tokens are credited only to accounts that are allowed
/// at the time of the credit.
pub proof fn lemma_credit_goes_to_allowed(state: TokenState, call: Call, account: Account)
    requires
        state.step(call).ledger.balance(account) > state.ledger.balance(account),
    ensures
        state.step(call).allowlist.contains(account),
{
}

/// Every account that holds tokens in a state that calls can reach from
/// construction is on the allowlist in that state, or was on it in an
/// earlier one.
pub proof fn theorem_holders_were_allowed(
    admin: Account,
    manager: Account,
    initial_supply: int,
    calls: Seq<Call>,
    holder: Account,
)
    requires
        0 <= initial_supply,
        TokenState::constructed(admin, manager, initial_supply).run(calls).ledger.balance(holder)
            > 0,
    ensures
        exists|n: int|
            0 <= n <= calls.len() && TokenState::constructed(admin, manager, initial_supply).run(
                #[trigger] calls.take(n),
            ).allowlist.contains(holder),
    decreases calls.len(),
{
    let start = TokenState::constructed(admin, manager, initial_supply);
    if calls.len() == 0 {
        assert(calls.take(0) =~= calls);
        assert(start.run(calls.take(0)).allowlist.contains(holder));
    } else {
        let before = start.run(calls.drop_last());
        if before.ledger.balance(holder) > 0 {
            theorem_holders_were_allowed(admin, manager, initial_supply, calls.drop_last(), holder);
            let n = choose|n: int|
                0 <= n <= calls.drop_last().len() && start.run(
                    #[trigger] calls.drop_last().take(n),
                ).allowlist.contains(holder);
            assert(calls.drop_last().take(n) =~= calls.take(n));
        } else {
            lemma_credit_goes_to_allowed(before, calls.last(), holder);
            assert(calls.take(calls.len() as int) =~= calls);
        }
    }
}

/// Allowing a user twice leaves the state that allowing it once leaves.
pub proof fn theorem_allow_user_idempotent(
    state: TokenState,
    auth: Set<Account>,
    user: Account,
    operator: Account,
)
    ensures
        state.step(Call::AllowUser { auth, user, operator }).step(
            Call::AllowUser { auth, user, operator },
        ) == state.step(Call::AllowUser { auth, user, operator }),
        state.allow_user(user).allow_user(user) == state.allow_user(user),
{
    assert(state.allowlist.insert(user).insert(user) =~= state.allowlist.insert(user));
}

/// Disallowing a user twice leaves the state that disallowing it once
/// leaves.
pub proof fn theorem_disallow_user_idempotent(
    state: TokenState,
    auth: Set<Account>,
    user: Account,
    operator: Account,
)
    ensures
        state.step(Call::DisallowUser { auth, user, operator }).step(
            Call::DisallowUser { auth, user, operator },
        ) == state.step(Call::DisallowUser { auth, user, operator }),
        state.disallow_user(user).disallow_user(user) == state.disallow_user(user),
{
    assert(state.allowlist.remove(user).remove(user) =~= state.allowlist.remove(user));
}

/// Allowing a user that is on the list, or disallowing one that is not,
/// changes nothing.
pub proof fn theorem_allowlist_change_is_no_op_when_done(state: TokenState, user: Account)
    ensures
        state.allowlist.contains(user) ==> state.allow_user(user) == state,
        !state.allowlist.contains(user) ==> state.disallow_user(user) == state,
{
    if state.allowlist.contains(user) {
        assert(state.allowlist.insert(user) =~= state.allowlist);
    } else {
        assert(state.allowlist.remove(user) =~= state.allowlist);
    }
}

/// An operator without the manager role cannot change the allowlist: both
/// calls are refused for want of authorization and leave the state as it
/// was, whoever authorized them.
pub proof fn theorem_role_gate(
    state: TokenState,
    auth: Set<Account>,
    user: Account,
    operator: Account,
)
    requires
        !state.roles.has_role(operator, Role::manager()),
    ensures
        state.error_of(Call::AllowUser { auth, user, operator }) == Some(
            TokenError::AuthorizationError,
        ),
        state.error_of(Call::DisallowUser { auth, user, operator }) == Some(
            TokenError::AuthorizationError,
        ),
        state.step(Call::AllowUser { auth, user, operator }) == state,
        state.step(Call::DisallowUser { auth, user, operator }) == state,
{
}

/// A transfer to an account that is not on the allowlist is refused and
/// changes no balance, with or without a spender in between.
pub proof fn theorem_transfer_gate(
    state: TokenState,
    auth: Set<Account>,
    spender: Account,
    from: Account,
    to: Account,
    amount: int,
)
    requires
        !state.allowlist.contains(to),
    ensures
        state.error_of(Call::Transfer { auth, from, to, amount }) is Some,
        state.error_of(Call::TransferFrom { auth, spender, from, to, amount }) is Some,
        state.step(Call::Transfer { auth, from, to, amount }) == state,
        state.step(Call::TransferFrom { auth, spender, from, to, amount }) == state,
{
}

/// A transfer does not ask whether the source is on the allowlist: whether
/// it is accepted, and what it does, are the same with the source on the
/// list and off it.
pub proof fn theorem_transfer_ignores_source_listing(
    state: TokenState,
    auth: Set<Account>,
    from: Account,
    to: Account,
    amount: int,
)
    requires
        from != to,
    ensures
        state.disallow_user(from).error_of(Call::Transfer { auth, from, to, amount })
            == state.allow_user(from).error_of(Call::Transfer { auth, from, to, amount }),
        state.disallow_user(from).step(Call::Transfer { auth, from, to, amount }).ledger
            == state.allow_user(from).step(Call::Transfer { auth, from, to, amount }).ledger,
{
}

/// An account leaves the allowlist only by a call that disallows it: no
/// other call takes anyone off the list.
pub proof fn theorem_listing_ends_only_by_disallow(state: TokenState, call: Call, account: Account)
    requires
        state.allowlist.contains(account),
        !state.step(call).allowlist.contains(account),
    ensures
        call matches Call::DisallowUser { user, .. } && user == account,
{
}

/// An account comes onto the allowlist only by a call that allows it, or by
/// a public mint to it.
pub proof fn theorem_listing_begins_only_by_allow_or_mint(
    state: TokenState,
    call: Call,
    account: Account,
)
    requires
        !state.allowlist.contains(account),
        state.step(call).allowlist.contains(account),
    ensures
        ({
            ||| call matches Call::AllowUser { user, .. } && user == account
            ||| call matches Call::MintRwaTokens { to, .. } && to == account
        }),
{
}

/// An account gains a role only by a call that grants it, and the
/// administrator changes only by a call that hands the office over.
pub proof fn theorem_roles_change_only_by_role_calls(
    state: TokenState,
    call: Call,
    holder: Account,
    held: Role,
)
    ensures
        !state.roles.has_role(holder, held) && state.step(call).roles.has_role(holder, held) ==> ({
            call matches Call::GrantRole { account, role, .. } && account == holder && role == held
        }),
        state.step(call).roles.admin != state.roles.admin ==> call is TransferAdminRole,
{
}

/// An account loses a role only by a call that revokes it.
pub proof fn theorem_role_ends_only_by_revoke(
    state: TokenState,
    call: Call,
    holder: Account,
    held: Role,
)
    requires
        state.roles.has_role(holder, held),
        !state.step(call).roles.has_role(holder, held),
    ensures
        call matches Call::RevokeRole { account, role, .. } && account == holder && role == held,
{
}

/// A balance changes only through a mint, a burn or a transfer, and the
/// total supply only through a mint or a burn.
pub proof fn theorem_balances_change_only_by_ledger_calls(
    state: TokenState,
    call: Call,
    account: Account,
)
    ensures
        state.step(call).ledger.balance(account) != state.ledger.balance(account) ==> ({
            ||| call is MintRwaTokens
            ||| call is Transfer
            ||| call is TransferFrom
            ||| call is Burn
            ||| call is BurnFrom
        }),
        state.step(call).ledger.total_supply != state.ledger.total_supply ==> ({
            ||| call is MintRwaTokens
            ||| call is Burn
            ||| call is BurnFrom
        }),
{
}

/// A public mint that is accepted leaves the recipient on the allowlist with
/// exactly `amount` more; no other account's balance or listing changes.
pub proof fn theorem_mint_enrolls_and_credits(
    state: TokenState,
    auth: Set<Account>,
    to: Account,
    amount: int,
    other: Account,
)
    requires
        state.error_of(Call::MintRwaTokens { auth, to, amount }) is None,
        other != to,
    ensures
        ({
            let after = state.step(Call::MintRwaTokens { auth, to, amount });
            &&& after.allowlist.contains(to)
            &&& after.ledger.balance(to) == state.ledger.balance(to) + amount
            &&& after.ledger.total_supply == state.ledger.total_supply + amount
            &&& after.ledger.balance(other) == state.ledger.balance(other)
            &&& after.allowlist.contains(other) == state.allowlist.contains(other)
            &&& after.ledger.allowances == state.ledger.allowances
            &&& after.roles == state.roles
        }),
{
}

} // verus!
