use vstd::prelude::*;

verus! {

/// Decimal places of one whole token.
pub const DECIMALS: u32 = 18;

/// The token's display name.
pub const NAME: &'static str = "Real World Asset Token";

/// The token's symbol.
pub const SYMBOL: &'static str = "RWA";

/// Precision, display name and symbol. Fixed when the token is constructed.
#[derive(Clone, Copy, Debug)]
pub struct TokenMetadata {
    pub decimals: u32,
    pub name: &'static str,
    pub symbol: &'static str,
}

impl TokenMetadata {
    /// The metadata of this token.
    pub open spec fn spec_fixed() -> TokenMetadata {
        TokenMetadata { decimals: DECIMALS, name: NAME, symbol: SYMBOL }
    }

    /// The metadata of this token.
    #[verifier::when_used_as_spec(spec_fixed)]
    pub fn fixed() -> (metadata: TokenMetadata)
        ensures
            metadata == TokenMetadata::spec_fixed(),
    {
        TokenMetadata { decimals: DECIMALS, name: NAME, symbol: SYMBOL }
    }
}

} // verus!
