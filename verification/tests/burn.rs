use mock_rwa_token::account::{Account, Authorization};
use mock_rwa_token::error::TokenError;
use mock_rwa_token::token::MockRwaToken;

fn fresh() -> (MockRwaToken, Account, Account) {
    let alice = Account::new(1);
    let bob = Account::new(2);
    (MockRwaToken::__constructor(alice, bob, 1000).unwrap(), alice, bob)
}

#[test]
fn burn_reduces_balance_and_supply() {
    let (mut token, alice, _) = fresh();
    assert_eq!(token.burn(&Authorization::of(alice), alice, 400), Ok(()));
    assert_eq!(token.balance(alice), 600);
    assert_eq!(token.total_supply(), 600);
}

#[test]
fn burn_of_everything_leaves_nothing() {
    let (mut token, alice, _) = fresh();
    assert_eq!(token.burn(&Authorization::of(alice), alice, 1000), Ok(()));
    assert_eq!(token.balance(alice), 0);
    assert_eq!(token.total_supply(), 0);
    assert_eq!(
        token.burn(&Authorization::of(alice), alice, 1),
        Err(TokenError::InsufficientBalance)
    );
    assert_eq!(token.burn(&Authorization::of(alice), alice, 0), Ok(()));
}

#[test]
fn burn_refusals() {
    let (mut token, alice, bob) = fresh();
    assert_eq!(
        token.burn(&Authorization::of(bob), alice, 1),
        Err(TokenError::AuthorizationError)
    );
    assert_eq!(token.burn(&Authorization::of(alice), alice, -1), Err(TokenError::InvalidAmount));
    assert_eq!(
        token.burn(&Authorization::of(alice), alice, 1001),
        Err(TokenError::InsufficientBalance)
    );
    assert_eq!(token.balance(alice), 1000);
    assert_eq!(token.total_supply(), 1000);
}

#[test]
fn burn_does_not_ask_the_allowlist() {
    let (mut token, alice, bob) = fresh();
    token.disallow_user(&Authorization::of(bob), alice, bob).unwrap();
    assert!(!token.allowed(alice));
    assert_eq!(token.burn(&Authorization::of(alice), alice, 10), Ok(()));
    assert_eq!(token.balance(alice), 990);
    assert_eq!(token.total_supply(), 990);
}

#[test]
fn burn_from_spends_the_allowance() {
    let (mut token, alice, bob) = fresh();
    token.approve(&Authorization::of(alice), alice, bob, 300).unwrap();
    assert_eq!(token.burn_from(&Authorization::of(bob), bob, alice, 100), Ok(()));
    assert_eq!(token.allowance(alice, bob), 200);
    assert_eq!(token.balance(alice), 900);
    assert_eq!(token.total_supply(), 900);
}

#[test]
fn burn_from_refusals() {
    let (mut token, alice, bob) = fresh();
    token.approve(&Authorization::of(alice), alice, bob, 300).unwrap();
    assert_eq!(
        token.burn_from(&Authorization::of(alice), bob, alice, 100),
        Err(TokenError::AuthorizationError)
    );
    assert_eq!(
        token.burn_from(&Authorization::of(bob), bob, alice, -1),
        Err(TokenError::InvalidAmount)
    );
    assert_eq!(
        token.burn_from(&Authorization::of(bob), bob, alice, 301),
        Err(TokenError::InsufficientAllowance)
    );
    token.approve(&Authorization::of(alice), alice, bob, 5000).unwrap();
    assert_eq!(
        token.burn_from(&Authorization::of(bob), bob, alice, 1001),
        Err(TokenError::InsufficientBalance)
    );
    assert_eq!(token.allowance(alice, bob), 5000);
    assert_eq!(token.balance(alice), 1000);
    assert_eq!(token.total_supply(), 1000);
}
