use vstd::prelude::*;

verus! {

/// Why a call was refused. A refused call changes nothing.
#[derive(Clone, Copy, Debug, PartialEq, Eq, Structural)]
pub enum TokenError {
    /// The account that must authorize the call did not, or the operator
    /// lacks the role the call asks for.
    AuthorizationError,
    /// The amount is negative, or (for a public mint) not strictly positive
    /// or above the per-call ceiling.
    InvalidAmount,
    /// The destination of a transfer is not on the allowlist.
    NotAllowed,
    /// The source holds less than the amount asked for.
    InsufficientBalance,
    /// The spender's allowance is below the amount asked for.
    InsufficientAllowance,
    /// The total supply would no longer fit its integer type.
    SupplyOverflow,
}

} // verus!
