use mock_rwa_token::account::{Account, Authorization};
use mock_rwa_token::allowlist::{AllowList, CreditPolicy};
use mock_rwa_token::error::TokenError;
use mock_rwa_token::token::MockRwaToken;

fn fresh() -> (MockRwaToken, Account, Account) {
    let alice = Account::new(1);
    let bob = Account::new(2);
    (MockRwaToken::__constructor(alice, bob, 1000).unwrap(), alice, bob)
}

#[test]
fn a_manager_allows_and_disallows() {
    let (mut token, _, bob) = fresh();
    let x = Account::new(5);
    let auth = Authorization::of(bob);
    assert!(!token.allowed(x));
    assert_eq!(token.allow_user(&auth, x, bob), Ok(()));
    assert!(token.allowed(x));
    assert_eq!(token.disallow_user(&auth, x, bob), Ok(()));
    assert!(!token.allowed(x));
}

#[test]
fn allowing_twice_is_allowing_once() {
    let (mut token, alice, bob) = fresh();
    let x = Account::new(5);
    let auth = Authorization::of(bob);
    assert_eq!(token.allow_user(&auth, x, bob), Ok(()));
    assert_eq!(token.allow_user(&auth, x, bob), Ok(()));
    assert!(token.allowed(x));
    assert!(token.allowed(alice));
    assert!(!token.allowed(bob));
    assert_eq!(token.disallow_user(&auth, x, bob), Ok(()));
    assert!(!token.allowed(x));
}

#[test]
fn disallowing_twice_is_disallowing_once() {
    let (mut token, alice, bob) = fresh();
    let x = Account::new(5);
    let auth = Authorization::of(bob);
    assert_eq!(token.disallow_user(&auth, x, bob), Ok(()));
    assert!(!token.allowed(x));
    assert_eq!(token.allow_user(&auth, x, bob), Ok(()));
    assert_eq!(token.disallow_user(&auth, x, bob), Ok(()));
    assert_eq!(token.disallow_user(&auth, x, bob), Ok(()));
    assert!(!token.allowed(x));
    assert!(token.allowed(alice));
}

#[test]
fn an_account_without_the_manager_role_cannot_change_the_list() {
    let (mut token, alice, _) = fresh();
    let x = Account::new(5);
    let carol = Account::new(3);
    assert_eq!(
        token.allow_user(&Authorization::of(carol), x, carol),
        Err(TokenError::AuthorizationError)
    );
    assert_eq!(
        token.allow_user(&Authorization::of(alice), x, alice),
        Err(TokenError::AuthorizationError)
    );
    assert!(!token.allowed(x));
    assert_eq!(
        token.disallow_user(&Authorization::of(carol), alice, carol),
        Err(TokenError::AuthorizationError)
    );
    assert_eq!(
        token.disallow_user(&Authorization::of(alice), alice, alice),
        Err(TokenError::AuthorizationError)
    );
    assert!(token.allowed(alice));
}

#[test]
fn a_manager_must_authorize_the_call_itself() {
    let (mut token, alice, bob) = fresh();
    let x = Account::new(5);
    assert_eq!(
        token.allow_user(&Authorization::none(), x, bob),
        Err(TokenError::AuthorizationError)
    );
    assert_eq!(
        token.allow_user(&Authorization::of(alice), x, bob),
        Err(TokenError::AuthorizationError)
    );
    assert!(!token.allowed(x));
}

#[test]
fn disallowing_leaves_the_balance_alone() {
    let (mut token, alice, bob) = fresh();
    assert_eq!(token.disallow_user(&Authorization::of(bob), alice, bob), Ok(()));
    assert!(!token.allowed(alice));
    assert_eq!(token.balance(alice), 1000);
    assert_eq!(token.total_supply(), 1000);
}

#[test]
fn allow_list_alone() {
    let mut list = AllowList::new();
    let x = Account::new(0);
    let y = Account::new(u64::MAX);
    assert!(!list.allowed(x));
    assert!(!list.may_credit(x));
    list.allow_user(x);
    list.allow_user(x);
    assert!(list.allowed(x));
    assert!(list.may_credit(x));
    assert!(!list.allowed(y));
    list.disallow_user(y);
    assert!(list.allowed(x));
    list.disallow_user(x);
    assert!(!list.allowed(x));
    assert!(!list.may_credit(x));
}

#[test]
fn authorization_covers_its_signers_only() {
    let x = Account::new(1);
    let y = Account::new(2);
    assert!(!Authorization::none().covers(x));
    let mut auth = Authorization::of(x);
    assert!(auth.covers(x));
    assert!(!auth.covers(y));
    auth.add(y);
    auth.add(y);
    assert!(auth.covers(x));
    assert!(auth.covers(y));
    assert!(!auth.covers(Account::new(3)));
}
