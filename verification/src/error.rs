//! The reasons for which a call is turned down.

use vstd::prelude::*;

verus! {

/// Why a call was turned down. A call that is turned down changes nothing.
#[derive(Debug, Clone, Copy, PartialEq, Eq, Structural)]
pub enum Error {
    /// The payment does not cover the mint.
    InsufficientDeposit,
    /// The supply cap allows no further token.
    ExceededTotalSupply,
    /// A sum, product or difference leaves the unsigned 128 bits.
    Overflow,
    /// The token's identifier and the contract's account give no valid
    /// account name for the vault.
    InvalidVaultAccount,
    /// A token with this identifier exists already.
    TokenAlreadyExists,
    /// A storage deposit below the minimum.
    BelowMinimumDeposit,
    /// No token has this identifier.
    TokenNotFound,
    /// Only the owner may burn a token.
    NotTokenOwner,
    /// The caller neither owns the token nor holds an approval for it.
    Unauthorized,
    /// The receiver owns the token already.
    SameOwner,
    /// The call must come with exactly one unit attached.
    RequiresOneYocto,
}

impl Error {
    /// The words with which the call is turned down.
    pub open spec fn spec_reason(self) -> Seq<char> {
        match self {
            Error::InsufficientDeposit => "Insufficient price to mint"@,
            Error::ExceededTotalSupply => "Exceeded total supply"@,
            Error::Overflow => "Arithmetic overflow"@,
            Error::InvalidVaultAccount => "Invalid vault account"@,
            Error::TokenAlreadyExists => "token_id must be unique"@,
            Error::BelowMinimumDeposit => "Requires minimum deposit of 10000000000000000000000"@,
            Error::TokenNotFound => "Token not found"@,
            Error::NotTokenOwner => "You don't own this NFT"@,
            Error::Unauthorized => "Sender not approved"@,
            Error::SameOwner => "Current and next owner must differ"@,
            Error::RequiresOneYocto => "Requires attached deposit of exactly 1 yoctoNEAR"@,
        }
    }

    pub fn reason(&self) -> (words: &'static str)
        ensures
            words@ == self.spec_reason(),
    {
        match self {
            Error::InsufficientDeposit => "Insufficient price to mint",
            Error::ExceededTotalSupply => "Exceeded total supply",
            Error::Overflow => "Arithmetic overflow",
            Error::InvalidVaultAccount => "Invalid vault account",
            Error::TokenAlreadyExists => "token_id must be unique",
            Error::BelowMinimumDeposit => "Requires minimum deposit of 10000000000000000000000",
            Error::TokenNotFound => "Token not found",
            Error::NotTokenOwner => "You don't own this NFT",
            Error::Unauthorized => "Sender not approved",
            Error::SameOwner => "Current and next owner must differ",
            Error::RequiresOneYocto => "Requires attached deposit of exactly 1 yoctoNEAR",
        }
    }
}

} // verus!
