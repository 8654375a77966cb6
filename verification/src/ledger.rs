use crate::account::{Account, Authorization};
use crate::allowlist::CreditPolicy;
use crate::error::TokenError;
use crate::pairing::{make_pair_key, pair_key};
use crate::tally::{
    all_positive, entry, lemma_entry_at_most_sum, lemma_sum_with_entry, positive_entries,
    sum_values, with_entry,
};
use std::collections::HashMap;
use vstd::prelude::*;

verus! {

/// What the ledger records: who holds how much, who may spend how much of
/// whose holdings, and how much exists in all.
pub struct LedgerState {
    /// The holdings. An account that holds nothing has no entry.
    pub balances: Map<Account, int>,
    /// What `(owner, spender)` may still spend. No entry means nothing.
    pub allowances: Map<(Account, Account), int>,
    pub total_supply: int,
}

impl LedgerState {
    /// The ledger on which nothing exists: no holdings, no allowances, no
    /// supply.
    pub open spec fn empty() -> LedgerState {
        LedgerState {
            balances: Map::<Account, int>::empty(),
            allowances: Map::<(Account, Account), int>::empty(),
            total_supply: 0,
        }
    }

    /// What `account` holds.
    pub open spec fn balance(self, account: Account) -> int {
        entry(self.balances, account)
    }

    /// What `spender` may still spend of `owner`'s holdings.
    pub open spec fn allowance(self, owner: Account, spender: Account) -> int {
        entry(self.allowances, (owner, spender))
    }

    /// Holdings and allowances are strictly positive where recorded, and the
    /// holdings add up to the total supply.
    pub open spec fn valid(self) -> bool {
        &&& all_positive(self.balances)
        &&& positive_entries(self.allowances)
        &&& sum_values(self.balances) == self.total_supply
    }

    /// `account` holds `amount` more; the supply is not touched.
    pub open spec fn credit(self, account: Account, amount: int) -> LedgerState {
        LedgerState {
            balances: with_entry(self.balances, account, self.balance(account) + amount),
            ..self
        }
    }

    /// `account` holds `amount` less; the supply is not touched.
    pub open spec fn debit(self, account: Account, amount: int) -> LedgerState {
        LedgerState {
            balances: with_entry(self.balances, account, self.balance(account) - amount),
            ..self
        }
    }

    /// `amount` new units exist and `to` holds them.
    pub open spec fn mint(self, to: Account, amount: int) -> LedgerState {
        LedgerState { total_supply: self.total_supply + amount, ..self.credit(to, amount) }
    }

    /// `amount` units that `from` held exist no more.
    pub open spec fn burn(self, from: Account, amount: int) -> LedgerState {
        LedgerState { total_supply: self.total_supply - amount, ..self.debit(from, amount) }
    }

    /// `amount` units move from `from` to `to`.
    pub open spec fn transfer(self, from: Account, to: Account, amount: int) -> LedgerState {
        self.debit(from, amount).credit(to, amount)
    }

    /// `spender` may spend exactly `amount` of `owner`'s holdings.
    pub open spec fn approve(self, owner: Account, spender: Account, amount: int) -> LedgerState {
        LedgerState { allowances: with_entry(self.allowances, (owner, spender), amount), ..self }
    }

    /// `spender` has used up `amount` of what `owner` allowed.
    pub open spec fn spend(self, owner: Account, spender: Account, amount: int) -> LedgerState {
        self.approve(owner, spender, self.allowance(owner, spender) - amount)
    }

    /// Why minting `amount` is refused, if it is.
    pub open spec fn mint_error(self, amount: int) -> Option<TokenError> {
        if amount < 0 {
            Some(TokenError::InvalidAmount)
        } else if self.total_supply + amount > i128::MAX {
            Some(TokenError::SupplyOverflow)
        } else {
            None
        }
    }

    /// Why `from` cannot burn `amount` of its own holdings, if it cannot.
    pub open spec fn burn_error(
        self,
        auth: Set<Account>,
        from: Account,
        amount: int,
    ) -> Option<TokenError> {
        if !auth.contains(from) {
            Some(TokenError::AuthorizationError)
        } else if amount < 0 {
            Some(TokenError::InvalidAmount)
        } else if self.balance(from) < amount {
            Some(TokenError::InsufficientBalance)
        } else {
            None
        }
    }

    /// Why `spender` cannot burn `amount` of `from`'s holdings, if it cannot.
    pub open spec fn burn_from_error(
        self,
        auth: Set<Account>,
        spender: Account,
        from: Account,
        amount: int,
    ) -> Option<TokenError> {
        if !auth.contains(spender) {
            Some(TokenError::AuthorizationError)
        } else if amount < 0 {
            Some(TokenError::InvalidAmount)
        } else if self.allowance(from, spender) < amount {
            Some(TokenError::InsufficientAllowance)
        } else if self.balance(from) < amount {
            Some(TokenError::InsufficientBalance)
        } else {
            None
        }
    }

    /// Why `from` cannot transfer `amount` to `to`, if it cannot, where
    /// `creditable` are the accounts that a transfer may credit.
    pub open spec fn transfer_error(
        self,
        auth: Set<Account>,
        creditable: Set<Account>,
        from: Account,
        to: Account,
        amount: int,
    ) -> Option<TokenError> {
        if !auth.contains(from) {
            Some(TokenError::AuthorizationError)
        } else if amount < 0 {
            Some(TokenError::InvalidAmount)
        } else if !creditable.contains(to) {
            Some(TokenError::NotAllowed)
        } else if self.balance(from) < amount {
            Some(TokenError::InsufficientBalance)
        } else {
            None
        }
    }

    /// Why `spender` cannot transfer `amount` from `from` to `to`, if it
    /// cannot, where `creditable` are the accounts that a transfer may credit.
    pub open spec fn transfer_from_error(
        self,
        auth: Set<Account>,
        creditable: Set<Account>,
        spender: Account,
        from: Account,
        to: Account,
        amount: int,
    ) -> Option<TokenError> {
        if !auth.contains(spender) {
            Some(TokenError::AuthorizationError)
        } else if amount < 0 {
            Some(TokenError::InvalidAmount)
        } else if !creditable.contains(to) {
            Some(TokenError::NotAllowed)
        } else if self.allowance(from, spender) < amount {
            Some(TokenError::InsufficientAllowance)
        } else if self.balance(from) < amount {
            Some(TokenError::InsufficientBalance)
        } else {
            None
        }
    }

    /// Why `owner` cannot set an allowance of `amount`, if it cannot.
    pub open spec fn approve_error(
        self,
        auth: Set<Account>,
        owner: Account,
        amount: int,
    ) -> Option<TokenError> {
        if !auth.contains(owner) {
            Some(TokenError::AuthorizationError)
        } else if amount < 0 {
            Some(TokenError::InvalidAmount)
        } else {
            None
        }
    }
}

/// Crediting or debiting one account, within what it holds, keeps the
/// holdings strictly positive and moves their sum by the same amount.
pub proof fn lemma_balance_change(balances: Map<Account, int>, account: Account, change: int)
    requires
        all_positive(balances),
        0 <= entry(balances, account) + change,
    ensures
        all_positive(with_entry(balances, account, entry(balances, account) + change)),
        sum_values(with_entry(balances, account, entry(balances, account) + change)) == sum_values(
            balances,
        ) + change,
{
    lemma_sum_with_entry(balances, account, entry(balances, account) + change);
}

/// Minting an amount that is not negative keeps the ledger valid.
pub proof fn lemma_mint_keeps_valid(ledger: LedgerState, to: Account, amount: int)
    requires
        ledger.valid(),
        0 <= amount,
    ensures
        ledger.mint(to, amount).valid(),
{
    lemma_entry_at_most_sum(ledger.balances, to);
    lemma_balance_change(ledger.balances, to, amount);
}

/// Burning no more than the account holds keeps the ledger valid.
pub proof fn lemma_burn_keeps_valid(ledger: LedgerState, from: Account, amount: int)
    requires
        ledger.valid(),
        0 <= amount <= ledger.balance(from),
    ensures
        ledger.burn(from, amount).valid(),
{
    lemma_balance_change(ledger.balances, from, -amount);
}

/// Transferring no more than the source holds keeps the ledger valid, and
/// the total supply as it was.
pub proof fn lemma_transfer_keeps_valid(
    ledger: LedgerState,
    from: Account,
    to: Account,
    amount: int,
)
    requires
        ledger.valid(),
        0 <= amount <= ledger.balance(from),
    ensures
        ledger.transfer(from, to, amount).valid(),
        ledger.transfer(from, to, amount).total_supply == ledger.total_supply,
{
    lemma_balance_change(ledger.balances, from, -amount);
    let debited = ledger.debit(from, amount);
    lemma_entry_at_most_sum(debited.balances, to);
    lemma_balance_change(debited.balances, to, amount);
}

/// Setting an allowance that is not negative keeps the ledger valid.
pub proof fn lemma_approve_keeps_valid(
    ledger: LedgerState,
    owner: Account,
    spender: Account,
    amount: int,
)
    requires
        ledger.valid(),
        0 <= amount,
    ensures
        ledger.approve(owner, spender, amount).valid(),
{
}

/// The holdings that a table keyed by account id records.
pub open spec fn holdings_of(table: Map<u64, i128>) -> Map<Account, int> {
    Map::new(|a: Account| table.contains_key(a.id), |a: Account| table[a.id] as int)
}

/// The allowances that a table keyed by the pair key of owner and spender
/// records.
pub open spec fn allowances_of(table: Map<u128, i128>) -> Map<(Account, Account), int> {
    Map::new(
        |p: (Account, Account)| table.contains_key(pair_key(p.0.id, p.1.id)),
        |p: (Account, Account)| table[pair_key(p.0.id, p.1.id)] as int,
    )
}

/// Balances, allowances and the total supply, with the standard operations
/// on them. Who may call is the caller's business except where an operation
/// names the account that must have authorized it.
#[derive(Debug)]
pub struct Ledger {
    balances: HashMap<u64, i128>,
    allowances: HashMap<u128, i128>,
    total_supply: i128,
}

impl Ledger {
    /// What the ledger records.
    pub closed spec fn view(&self) -> LedgerState {
        LedgerState {
            balances: holdings_of(self.balances@),
            allowances: allowances_of(self.allowances@),
            total_supply: self.total_supply as int,
        }
    }

    /// A ledger on which nothing exists yet.
    pub fn new() -> (ledger: Ledger)
        ensures
            ledger@.valid(),
            ledger@ == LedgerState::empty(),
    {
        let ledger = Ledger {
            balances: HashMap::new(),
            allowances: HashMap::new(),
            total_supply: 0,
        };
        assert(ledger@.balances =~= Map::<Account, int>::empty());
        assert(ledger@.allowances =~= Map::<(Account, Account), int>::empty());
        ledger
    }

    /// The amount of tokens in existence.
    pub fn total_supply(&self) -> (supply: i128)
        ensures
            supply == self@.total_supply,
    {
        self.total_supply
    }

    /// What `account` holds; zero if it never held anything.
    pub fn balance(&self, account: Account) -> (amount: i128)
        ensures
            amount == self@.balance(account),
    {
        match self.balances.get(&account.id) {
            Some(held) => *held,
            None => 0,
        }
    }

    /// What `spender` may still spend of `owner`'s holdings.
    pub fn allowance(&self, owner: Account, spender: Account) -> (amount: i128)
        ensures
            amount == self@.allowance(owner, spender),
    {
        let key: u128 = make_pair_key(owner.id, spender.id);
        match self.allowances.get(&key) {
            Some(left) => *left,
            None => 0,
        }
    }

    fn set_balance(&mut self, account: Account, amount: i128)
        ensures
            final(self)@.balances == with_entry(old(self)@.balances, account, amount as int),
            final(self)@.allowances == old(self)@.allowances,
            final(self)@.total_supply == old(self)@.total_supply,
    {
        if amount == 0 {
            self.balances.remove(&account.id);
        } else {
            self.balances.insert(account.id, amount);
        }
        assert(self@.balances =~= with_entry(old(self)@.balances, account, amount as int));
    }

    fn set_allowance(&mut self, owner: Account, spender: Account, amount: i128)
        ensures
            final(self)@.allowances == with_entry(
                old(self)@.allowances,
                (owner, spender),
                amount as int,
            ),
            final(self)@.balances == old(self)@.balances,
            final(self)@.total_supply == old(self)@.total_supply,
    {
        let key: u128 = make_pair_key(owner.id, spender.id);
        if amount == 0 {
            self.allowances.remove(&key);
        } else {
            self.allowances.insert(key, amount);
        }
        assert(self@.allowances =~= with_entry(
            old(self)@.allowances,
            (owner, spender),
            amount as int,
        ));
    }

    fn credit(&mut self, account: Account, amount: i128)
        requires
            all_positive(old(self)@.balances),
            0 <= amount,
            sum_values(old(self)@.balances) + amount <= i128::MAX,
        ensures
            final(self)@ == old(self)@.credit(account, amount as int),
            all_positive(final(self)@.balances),
            sum_values(final(self)@.balances) == sum_values(old(self)@.balances) + amount,
    {
        proof {
            lemma_entry_at_most_sum(self@.balances, account);
            lemma_sum_with_entry(
                self@.balances,
                account,
                self@.balance(account) + amount,
            );
        }
        let held: i128 = self.balance(account);
        self.set_balance(account, held + amount);
    }

    fn debit(&mut self, account: Account, amount: i128)
        requires
            all_positive(old(self)@.balances),
            0 <= amount <= old(self)@.balance(account),
        ensures
            final(self)@ == old(self)@.debit(account, amount as int),
            all_positive(final(self)@.balances),
            sum_values(final(self)@.balances) == sum_values(old(self)@.balances) - amount,
    {
        proof {
            lemma_sum_with_entry(
                self@.balances,
                account,
                self@.balance(account) - amount,
            );
        }
        let held: i128 = self.balance(account);
        self.set_balance(account, held - amount);
    }

    fn spend(&mut self, owner: Account, spender: Account, amount: i128)
        requires
            positive_entries(old(self)@.allowances),
            0 <= amount <= old(self)@.allowance(owner, spender),
        ensures
            final(self)@ == old(self)@.spend(owner, spender, amount as int),
            positive_entries(final(self)@.allowances),
    {
        let left: i128 = self.allowance(owner, spender);
        self.set_allowance(owner, spender, left - amount);
    }

    /// Whether `amount` can be minted: it is not negative and the supply has
    /// room for it.
    pub fn check_mint(&self, amount: i128) -> (result: Result<(), TokenError>)
        requires
            self@.valid(),
        ensures
            match result {
                Ok(()) => self@.mint_error(amount as int) is None,
                Err(e) => self@.mint_error(amount as int) == Some(e),
            },
    {
        if amount < 0 {
            return Err(TokenError::InvalidAmount);
        }
        proof {
            lemma_entry_at_most_sum(self@.balances, Account { id: 0 });
        }
        if amount > i128::MAX - self.total_supply {
            return Err(TokenError::SupplyOverflow);
        }
        Ok(())
    }

    /// Creates `amount` tokens and credits them to `to`. The ledger asks for
    /// no authorization here: who may mint is for the caller to decide.
    pub fn mint(&mut self, to: Account, amount: i128) -> (result: Result<(), TokenError>)
        requires
            old(self)@.valid(),
        ensures
            final(self)@.valid(),
            match result {
                Ok(()) => {
                    &&& old(self)@.mint_error(amount as int) is None
                    &&& final(self)@ == old(self)@.mint(to, amount as int)
                },
                Err(e) => {
                    &&& old(self)@.mint_error(amount as int) == Some(e)
                    &&& final(self)@ == old(self)@
                },
            },
    {
        if amount < 0 {
            return Err(TokenError::InvalidAmount);
        }
        proof {
            lemma_entry_at_most_sum(self@.balances, to);
        }
        if amount > i128::MAX - self.total_supply {
            return Err(TokenError::SupplyOverflow);
        }
        self.credit(to, amount);
        self.total_supply = self.total_supply + amount;
        Ok(())
    }

    /// Destroys `amount` tokens that `from` holds. `from` must have
    /// authorized the call.
    pub fn burn(
        &mut self,
        auth: &Authorization,
        from: Account,
        amount: i128,
    ) -> (result: Result<(), TokenError>)
        requires
            old(self)@.valid(),
        ensures
            final(self)@.valid(),
            match result {
                Ok(()) => {
                    &&& old(self)@.burn_error(auth@, from, amount as int) is None
                    &&& final(self)@ == old(self)@.burn(from, amount as int)
                },
                Err(e) => {
                    &&& old(self)@.burn_error(auth@, from, amount as int) == Some(e)
                    &&& final(self)@ == old(self)@
                },
            },
    {
        if !auth.covers(from) {
            return Err(TokenError::AuthorizationError);
        }
        if amount < 0 {
            return Err(TokenError::InvalidAmount);
        }
        if self.balance(from) < amount {
            return Err(TokenError::InsufficientBalance);
        }
        proof {
            lemma_entry_at_most_sum(self@.balances, from);
        }
        self.debit(from, amount);
        self.total_supply = self.total_supply - amount;
        Ok(())
    }

    /// Destroys `amount` tokens that `from` holds, on `spender`'s
    /// authorization and out of what `from` allowed `spender`.
    pub fn burn_from(
        &mut self,
        auth: &Authorization,
        spender: Account,
        from: Account,
        amount: i128,
    ) -> (result: Result<(), TokenError>)
        requires
            old(self)@.valid(),
        ensures
            final(self)@.valid(),
            match result {
                Ok(()) => {
                    &&& old(self)@.burn_from_error(auth@, spender, from, amount as int) is None
                    &&& final(self)@ == old(self)@.spend(from, spender, amount as int).burn(
                        from,
                        amount as int,
                    )
                },
                Err(e) => {
                    &&& old(self)@.burn_from_error(auth@, spender, from, amount as int) == Some(e)
                    &&& final(self)@ == old(self)@
                },
            },
    {
        if !auth.covers(spender) {
            return Err(TokenError::AuthorizationError);
        }
        if amount < 0 {
            return Err(TokenError::InvalidAmount);
        }
        if self.allowance(from, spender) < amount {
            return Err(TokenError::InsufficientAllowance);
        }
        if self.balance(from) < amount {
            return Err(TokenError::InsufficientBalance);
        }
        proof {
            lemma_entry_at_most_sum(self@.balances, from);
        }
        self.spend(from, spender, amount);
        self.debit(from, amount);
        self.total_supply = self.total_supply - amount;
        Ok(())
    }

    /// Moves `amount` tokens from `from` to `to`. `from` must have authorized
    /// the call, and `policy` must permit crediting `to`; the policy is asked
    /// before anything is written.
    pub fn transfer<P: CreditPolicy>(
        &mut self,
        policy: &P,
        auth: &Authorization,
        from: Account,
        to: Account,
        amount: i128,
    ) -> (result: Result<(), TokenError>)
        requires
            old(self)@.valid(),
        ensures
            final(self)@.valid(),
            match result {
                Ok(()) => {
                    &&& old(self)@.transfer_error(
                        auth@,
                        policy.creditable(),
                        from,
                        to,
                        amount as int,
                    ) is None
                    &&& final(self)@ == old(self)@.transfer(from, to, amount as int)
                },
                Err(e) => {
                    &&& old(self)@.transfer_error(
                        auth@,
                        policy.creditable(),
                        from,
                        to,
                        amount as int,
                    ) == Some(e)
                    &&& final(self)@ == old(self)@
                },
            },
    {
        if !auth.covers(from) {
            return Err(TokenError::AuthorizationError);
        }
        if amount < 0 {
            return Err(TokenError::InvalidAmount);
        }
        if !policy.may_credit(to) {
            return Err(TokenError::NotAllowed);
        }
        if self.balance(from) < amount {
            return Err(TokenError::InsufficientBalance);
        }
        self.debit(from, amount);
        self.credit(to, amount);
        Ok(())
    }

    /// Moves `amount` tokens from `from` to `to` on `spender`'s authorization
    /// and out of what `from` allowed `spender`. `policy` must permit
    /// crediting `to`; it is asked before anything is written.
    pub fn transfer_from<P: CreditPolicy>(
        &mut self,
        policy: &P,
        auth: &Authorization,
        spender: Account,
        from: Account,
        to: Account,
        amount: i128,
    ) -> (result: Result<(), TokenError>)
        requires
            old(self)@.valid(),
        ensures
            final(self)@.valid(),
            match result {
                Ok(()) => {
                    &&& old(self)@.transfer_from_error(
                        auth@,
                        policy.creditable(),
                        spender,
                        from,
                        to,
                        amount as int,
                    ) is None
                    &&& final(self)@ == old(self)@.spend(from, spender, amount as int).transfer(
                        from,
                        to,
                        amount as int,
                    )
                },
                Err(e) => {
                    &&& old(self)@.transfer_from_error(
                        auth@,
                        policy.creditable(),
                        spender,
                        from,
                        to,
                        amount as int,
                    ) == Some(e)
                    &&& final(self)@ == old(self)@
                },
            },
    {
        if !auth.covers(spender) {
            return Err(TokenError::AuthorizationError);
        }
        if amount < 0 {
            return Err(TokenError::InvalidAmount);
        }
        if !policy.may_credit(to) {
            return Err(TokenError::NotAllowed);
        }
        if self.allowance(from, spender) < amount {
            return Err(TokenError::InsufficientAllowance);
        }
        if self.balance(from) < amount {
            return Err(TokenError::InsufficientBalance);
        }
        self.spend(from, spender, amount);
        self.debit(from, amount);
        self.credit(to, amount);
        Ok(())
    }

    /// Lets `spender` spend exactly `amount` of `owner`'s holdings, whatever
    /// it could spend before. `owner` must have authorized the call.
    pub fn approve(
        &mut self,
        auth: &Authorization,
        owner: Account,
        spender: Account,
        amount: i128,
    ) -> (result: Result<(), TokenError>)
        requires
            old(self)@.valid(),
        ensures
            final(self)@.valid(),
            match result {
                Ok(()) => {
                    &&& old(self)@.approve_error(auth@, owner, amount as int) is None
                    &&& final(self)@ == old(self)@.approve(owner, spender, amount as int)
                },
                Err(e) => {
                    &&& old(self)@.approve_error(auth@, owner, amount as int) == Some(e)
                    &&& final(self)@ == old(self)@
                },
            },
    {
        if !auth.covers(owner) {
            return Err(TokenError::AuthorizationError);
        }
        if amount < 0 {
            return Err(TokenError::InvalidAmount);
        }
        self.set_allowance(owner, spender, amount);
        Ok(())
    }
}

} // verus!
