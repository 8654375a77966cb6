use crate::account::Account;
use crate::error::TokenError;
use vstd::prelude::*;

verus! {

/// The most that one public mint may create: one million whole tokens, in
/// base units.
pub const MAX_MINT: i128 = 1_000_000_000_000_000_000_000_000;

/// Whether a public mint accepts `amount`: strictly positive and at most
/// [`MAX_MINT`].
pub open spec fn mintable_amount(amount: int) -> bool {
    0 < amount <= MAX_MINT
}

/// The fixed tag in the topic of a mint event.
pub const MINT_EVENT_TAG: &'static str = "mock_mint";

/// What a successful public mint asks the host to emit: the topic is
/// [`MINT_EVENT_TAG`] and the recipient, the payload is the amount.
#[derive(Clone, Copy, Debug, PartialEq, Eq, Structural)]
pub struct MintEvent {
    pub to: Account,
    pub amount: i128,
}

/// Checks the amount of a public mint.
pub fn validate_mint_amount(amount: i128) -> (result: Result<(), TokenError>)
    ensures
        mintable_amount(amount as int) ==> result == Ok::<(), TokenError>(()),
        !mintable_amount(amount as int) ==> result == Err::<(), TokenError>(
            TokenError::InvalidAmount,
        ),
{
    if amount <= 0 {
        return Err(TokenError::InvalidAmount);
    }
    if amount > MAX_MINT {
        return Err(TokenError::InvalidAmount);
    }
    Ok(())
}

} // verus!
