use mock_rwa_token::account::{Account, Authorization};
use mock_rwa_token::allowlist::AllowList;
use mock_rwa_token::error::TokenError;
use mock_rwa_token::ledger::Ledger;
use mock_rwa_token::pairing::make_pair_key;
use mock_rwa_token::token::MockRwaToken;

#[test]
fn pair_key_puts_the_first_id_in_the_high_half() {
    assert_eq!(make_pair_key(0, 0), 0);
    assert_eq!(make_pair_key(0, 1), 1);
    assert_eq!(make_pair_key(1, 0), 1u128 << 64);
    assert_eq!(make_pair_key(3, 5), (3u128 << 64) + 5);
    assert_eq!(make_pair_key(u64::MAX, u64::MAX), u128::MAX);
    assert_ne!(make_pair_key(1, 2), make_pair_key(2, 1));
}

#[test]
fn a_new_ledger_is_empty() {
    let ledger = Ledger::new();
    assert_eq!(ledger.total_supply(), 0);
    assert_eq!(ledger.balance(Account::new(1)), 0);
    assert_eq!(ledger.allowance(Account::new(1), Account::new(2)), 0);
    assert_eq!(ledger.check_mint(0), Ok(()));
    assert_eq!(ledger.check_mint(i128::MAX), Ok(()));
    assert_eq!(ledger.check_mint(-1), Err(TokenError::InvalidAmount));
}

#[test]
fn ledger_mint_and_its_refusals() {
    let mut ledger = Ledger::new();
    let x = Account::new(1);
    assert_eq!(ledger.mint(x, -1), Err(TokenError::InvalidAmount));
    assert_eq!(ledger.mint(x, 0), Ok(()));
    assert_eq!(ledger.balance(x), 0);
    assert_eq!(ledger.mint(x, i128::MAX - 1), Ok(()));
    assert_eq!(ledger.check_mint(2), Err(TokenError::SupplyOverflow));
    assert_eq!(ledger.mint(Account::new(2), 2), Err(TokenError::SupplyOverflow));
    assert_eq!(ledger.mint(Account::new(2), 1), Ok(()));
    assert_eq!(ledger.total_supply(), i128::MAX);
    assert_eq!(ledger.balance(x), i128::MAX - 1);
    assert_eq!(ledger.balance(Account::new(2)), 1);
}

#[test]
fn ledger_asks_the_policy_about_the_destination() {
    let mut ledger = Ledger::new();
    let mut list = AllowList::new();
    let x = Account::new(1);
    let y = Account::new(2);
    ledger.mint(x, 10).unwrap();
    let auth = Authorization::of(x);
    assert_eq!(ledger.transfer(&list, &auth, x, y, 4), Err(TokenError::NotAllowed));
    list.allow_user(y);
    assert_eq!(ledger.transfer(&list, &auth, x, y, 4), Ok(()));
    assert_eq!(ledger.balance(x), 6);
    assert_eq!(ledger.balance(y), 4);
    assert_eq!(ledger.transfer(&list, &Authorization::of(y), y, x, 4), Err(TokenError::NotAllowed));
    ledger.approve(&auth, x, y, 6).unwrap();
    assert_eq!(
        ledger.transfer_from(&list, &Authorization::of(y), y, x, y, 6),
        Ok(())
    );
    assert_eq!(ledger.balance(x), 0);
    assert_eq!(ledger.balance(y), 10);
    assert_eq!(ledger.allowance(x, y), 0);
    assert_eq!(ledger.burn(&Authorization::of(y), y, 3), Ok(()));
    ledger.approve(&Authorization::of(y), y, x, 7).unwrap();
    assert_eq!(ledger.burn_from(&Authorization::of(x), x, y, 7), Ok(()));
    assert_eq!(ledger.balance(y), 0);
    assert_eq!(ledger.total_supply(), 0);
}

#[test]
fn balances_add_up_to_the_supply_after_every_call() {
    let alice = Account::new(1);
    let bob = Account::new(2);
    let carol = Account::new(3);
    let dave = Account::new(4);
    let everyone = [alice, bob, carol, dave];
    let mut token = MockRwaToken::__constructor(alice, bob, 1000).unwrap();
    let sum = |token: &MockRwaToken| -> i128 { everyone.iter().map(|a| token.balance(*a)).sum() };
    assert_eq!(sum(&token), token.total_supply());
    token.mint_rwa_tokens(&Authorization::of(carol), carol, 250).unwrap();
    assert_eq!(sum(&token), token.total_supply());
    token.transfer(&Authorization::of(alice), alice, carol, 400).unwrap();
    assert_eq!(sum(&token), token.total_supply());
    assert!(token.transfer(&Authorization::of(carol), carol, dave, 1).is_err());
    assert_eq!(sum(&token), token.total_supply());
    token.allow_user(&Authorization::of(bob), dave, bob).unwrap();
    token.approve(&Authorization::of(carol), carol, bob, 600).unwrap();
    token.transfer_from(&Authorization::of(bob), bob, carol, dave, 600).unwrap();
    assert_eq!(sum(&token), token.total_supply());
    token.burn(&Authorization::of(dave), dave, 99).unwrap();
    assert_eq!(sum(&token), token.total_supply());
    token.approve(&Authorization::of(alice), alice, dave, 600).unwrap();
    token.burn_from(&Authorization::of(dave), dave, alice, 600).unwrap();
    assert_eq!(sum(&token), token.total_supply());
    assert_eq!(token.total_supply(), 1000 + 250 - 99 - 600);
    assert_eq!(token.balance(alice), 0);
    assert_eq!(token.balance(bob), 0);
    assert_eq!(token.balance(carol), 50);
    assert_eq!(token.balance(dave), 501);
}

#[test]
fn every_holder_is_or_was_on_the_allowlist() {
    let alice = Account::new(1);
    let bob = Account::new(2);
    let carol = Account::new(3);
    let dave = Account::new(4);
    let mut token = MockRwaToken::__constructor(alice, bob, 1000).unwrap();
    let mut ever_allowed = vec![alice];
    token.mint_rwa_tokens(&Authorization::of(carol), carol, 5).unwrap();
    ever_allowed.push(carol);
    assert!(token.transfer(&Authorization::of(carol), carol, dave, 5).is_err());
    token.disallow_user(&Authorization::of(bob), carol, bob).unwrap();
    token.disallow_user(&Authorization::of(bob), alice, bob).unwrap();
    assert!(token.transfer(&Authorization::of(alice), alice, carol, 5).is_err());
    for account in [alice, bob, carol, dave] {
        if token.balance(account) > 0 {
            assert!(token.allowed(account) || ever_allowed.contains(&account));
        }
    }
    assert_eq!(token.balance(dave), 0);
    assert_eq!(token.balance(bob), 0);
    assert_eq!(token.balance(carol), 5);
}
