use crate::account::{accounts_of, Account};
use std::collections::HashSet;
use vstd::prelude::*;

verus! {

/// Decides whether an account may be credited by a transfer. The ledger asks
/// it before it writes anything.
pub trait CreditPolicy {
    /// The accounts that may be credited.
    spec fn creditable(&self) -> Set<Account>;

    fn may_credit(&self, account: Account) -> (permitted: bool)
        ensures
            permitted == self.creditable().contains(account),
    ;
}

/// The accounts permitted to receive tokens. Membership is a set: an account
/// is on it or not, and one that is absent is disallowed.
#[derive(Debug)]
pub struct AllowList {
    members: HashSet<u64>,
}

impl AllowList {
    /// The accounts on the list.
    pub closed spec fn view(&self) -> Set<Account> {
        accounts_of(self.members@)
    }

    /// A list with nobody on it.
    pub fn new() -> (list: AllowList)
        ensures
            list@ == Set::<Account>::empty(),
    {
        let list = AllowList { members: HashSet::new() };
        assert(list@ =~= Set::<Account>::empty());
        list
    }

    /// Whether `account` is on the list.
    pub fn allowed(&self, account: Account) -> (present: bool)
        ensures
            present == self@.contains(account),
    {
        self.members.contains(&account.id)
    }

    /// Puts `user` on the list. Nothing changes if it is there already.
    pub fn allow_user(&mut self, user: Account)
        ensures
            final(self)@ == old(self)@.insert(user),
    {
        self.members.insert(user.id);
        assert(self@ =~= old(self)@.insert(user));
    }

    /// Takes `user` off the list. Nothing changes if it is not there.
    pub fn disallow_user(&mut self, user: Account)
        ensures
            final(self)@ == old(self)@.remove(user),
    {
        self.members.remove(&user.id);
        assert(self@ =~= old(self)@.remove(user));
    }
}

impl CreditPolicy for AllowList {
    open spec fn creditable(&self) -> Set<Account> {
        self@
    }

    fn may_credit(&self, account: Account) -> (permitted: bool) {
        self.allowed(account)
    }
}

} // verus!
