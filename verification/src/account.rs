use std::collections::HashSet;
use vstd::prelude::*;

verus! {

/// An opaque holder or caller identity. Nothing is read from it but whether
/// two accounts are the same.
#[derive(Clone, Copy, Debug, PartialEq, Eq, Hash, Structural)]
pub struct Account {
    pub id: u64,
}

impl Account {
    pub fn new(id: u64) -> (account: Account)
        ensures
            account.id == id,
    {
        Account { id }
    }
}

/// The accounts whose ids are in `ids`.
pub open spec fn accounts_of(ids: Set<u64>) -> Set<Account> {
    Set::new(|a: Account| ids.contains(a.id))
}

/// The accounts that have proved control of themselves for the call at hand.
/// The host runtime verifies the signatures; the token only asks who signed.
#[derive(Debug)]
pub struct Authorization {
    signers: HashSet<u64>,
}

impl Authorization {
    /// The set of accounts that authorized the call.
    pub closed spec fn view(&self) -> Set<Account> {
        accounts_of(self.signers@)
    }

    /// A call that nobody authorized.
    pub fn none() -> (auth: Authorization)
        ensures
            auth@ == Set::<Account>::empty(),
    {
        let auth = Authorization { signers: HashSet::new() };
        assert(auth@ =~= Set::<Account>::empty());
        auth
    }

    /// A call that `account` alone authorized.
    pub fn of(account: Account) -> (auth: Authorization)
        ensures
            auth@ == Set::<Account>::empty().insert(account),
    {
        let mut auth = Authorization::none();
        auth.add(account);
        auth
    }

    /// Records that `account` authorized the call as well.
    pub fn add(&mut self, account: Account)
        ensures
            final(self)@ == old(self)@.insert(account),
    {
        self.signers.insert(account.id);
        assert(self@ =~= old(self)@.insert(account));
    }

    /// Whether `account` authorized the call.
    pub fn covers(&self, account: Account) -> (covered: bool)
        ensures
            covered == self@.contains(account),
    {
        self.signers.contains(&account.id)
    }
}

} // verus!
