use mock_rwa_token::account::{Account, Authorization};
use mock_rwa_token::error::TokenError;
use mock_rwa_token::roles::{Role, RoleStore};
use mock_rwa_token::token::MockRwaToken;

fn fresh() -> (MockRwaToken, Account, Account) {
    let alice = Account::new(1);
    let bob = Account::new(2);
    (MockRwaToken::__constructor(alice, bob, 1000).unwrap(), alice, bob)
}

#[test]
fn the_admin_grants_and_revokes_roles() {
    let (mut token, alice, bob) = fresh();
    let carol = Account::new(3);
    let auth = Authorization::of(alice);
    assert_eq!(token.grant_role(&auth, carol, Role::manager()), Ok(()));
    assert!(token.has_role(carol, Role::manager()));
    assert!(token.has_role(bob, Role::manager()));
    assert_eq!(token.allow_user(&Authorization::of(carol), carol, carol), Ok(()));
    assert!(token.allowed(carol));
    assert_eq!(token.revoke_role(&auth, bob, Role::manager()), Ok(()));
    assert!(!token.has_role(bob, Role::manager()));
    assert_eq!(
        token.allow_user(&Authorization::of(bob), bob, bob),
        Err(TokenError::AuthorizationError)
    );
}

#[test]
fn granting_and_revoking_again_changes_nothing() {
    let (mut token, alice, bob) = fresh();
    let carol = Account::new(3);
    let auth = Authorization::of(alice);
    assert_eq!(token.grant_role(&auth, bob, Role::manager()), Ok(()));
    assert!(token.has_role(bob, Role::manager()));
    assert_eq!(token.revoke_role(&auth, carol, Role::manager()), Ok(()));
    assert!(!token.has_role(carol, Role::manager()));
    assert!(token.has_role(bob, Role::manager()));
}

#[test]
fn roles_are_kept_apart() {
    let (mut token, alice, bob) = fresh();
    let auditor = Role::new(7);
    let auth = Authorization::of(alice);
    assert!(!token.has_role(bob, auditor));
    assert_eq!(token.grant_role(&auth, alice, auditor), Ok(()));
    assert!(token.has_role(alice, auditor));
    assert!(!token.has_role(alice, Role::manager()));
    assert!(!token.has_role(bob, auditor));
    assert_eq!(
        token.allow_user(&Authorization::of(alice), alice, alice),
        Err(TokenError::AuthorizationError)
    );
    let swapped = Role::new(alice.id);
    let who = Account::new(auditor.id);
    assert!(!token.has_role(who, swapped));
}

#[test]
fn only_the_admin_changes_roles() {
    let (mut token, alice, bob) = fresh();
    let carol = Account::new(3);
    assert_eq!(
        token.grant_role(&Authorization::of(bob), carol, Role::manager()),
        Err(TokenError::AuthorizationError)
    );
    assert_eq!(
        token.revoke_role(&Authorization::of(bob), bob, Role::manager()),
        Err(TokenError::AuthorizationError)
    );
    assert_eq!(
        token.transfer_admin_role(&Authorization::of(carol), carol),
        Err(TokenError::AuthorizationError)
    );
    assert!(!token.has_role(carol, Role::manager()));
    assert!(token.has_role(bob, Role::manager()));
    assert_eq!(token.get_admin(), alice);
}

#[test]
fn the_admin_hands_over_the_administration() {
    let (mut token, alice, bob) = fresh();
    let carol = Account::new(3);
    assert_eq!(token.transfer_admin_role(&Authorization::of(alice), carol), Ok(()));
    assert_eq!(token.get_admin(), carol);
    assert_eq!(
        token.grant_role(&Authorization::of(alice), alice, Role::manager()),
        Err(TokenError::AuthorizationError)
    );
    assert_eq!(token.grant_role(&Authorization::of(carol), alice, Role::manager()), Ok(()));
    assert!(token.has_role(alice, Role::manager()));
    assert!(token.has_role(bob, Role::manager()));
    assert!(token.allowed(alice));
    assert_eq!(token.balance(alice), 1000);
}

#[test]
fn role_store_alone() {
    let alice = Account::new(1);
    let bob = Account::new(2);
    let mut store = RoleStore::bootstrap(alice, bob);
    assert_eq!(store.get_admin(), alice);
    assert!(store.has_role(bob, Role::manager()));
    assert!(!store.has_role(alice, Role::manager()));
    assert_eq!(store.ensure_role(&Authorization::of(bob), bob, Role::manager()), Ok(()));
    assert_eq!(
        store.ensure_role(&Authorization::of(alice), bob, Role::manager()),
        Err(TokenError::AuthorizationError)
    );
    assert_eq!(
        store.ensure_role(&Authorization::of(alice), alice, Role::manager()),
        Err(TokenError::AuthorizationError)
    );
    assert_eq!(store.ensure_admin(&Authorization::of(alice)), Ok(()));
    assert_eq!(
        store.ensure_admin(&Authorization::of(bob)),
        Err(TokenError::AuthorizationError)
    );
    assert_eq!(store.grant_role(&Authorization::of(alice), alice, Role::new(9)), Ok(()));
    assert!(store.has_role(alice, Role::new(9)));
    assert_eq!(store.revoke_role(&Authorization::of(alice), alice, Role::new(9)), Ok(()));
    assert!(!store.has_role(alice, Role::new(9)));
    assert_eq!(store.transfer_admin_role(&Authorization::of(alice), bob), Ok(()));
    assert_eq!(store.get_admin(), bob);
}
