use vstd::prelude::*;

verus! {

/// Why the marketplace refuses an instruction.
#[derive(Debug, Clone, Copy, PartialEq, Eq, Structural)]
pub enum MarketplaceError {
    EmptyName,
    NameTooLong,
    InvalidFee,
    InvalidPrice,
    MathOverflow,
    InsufficientTreasuryFunds,
}

impl MarketplaceError {
    /// The message shown for the error.
    pub fn message(&self) -> (r: &'static str)
        ensures
            *self == MarketplaceError::EmptyName ==> r@ == "Marketplace name cannot be empty"@,
            *self == MarketplaceError::NameTooLong ==> r@ == "Marketplace name is too long"@,
            *self == MarketplaceError::InvalidFee ==> r@ == "Invalid fee basis points"@,
            *self == MarketplaceError::InvalidPrice ==> r@ == "Price must be greater than zero"@,
            *self == MarketplaceError::MathOverflow ==> r@ == "Math overflow"@,
            *self == MarketplaceError::InsufficientTreasuryFunds ==> r@
                == "Treasury has insufficient funds"@,
    {
        match self {
            MarketplaceError::EmptyName => "Marketplace name cannot be empty",
            MarketplaceError::NameTooLong => "Marketplace name is too long",
            MarketplaceError::InvalidFee => "Invalid fee basis points",
            MarketplaceError::InvalidPrice => "Price must be greater than zero",
            MarketplaceError::MathOverflow => "Math overflow",
            MarketplaceError::InsufficientTreasuryFunds => "Treasury has insufficient funds",
        }
    }
}

/// A relation among the accounts of an instruction that does not hold.
#[derive(Debug, Clone, Copy, PartialEq, Eq, Structural)]
pub enum ConstraintError {
    /// A record's stored key differs from the account passed for it.
    ConstraintHasOne,
    /// The payment mint passed differs from the one the record names.
    ConstraintRaw,
    /// The rewards mint does not have the marketplace's decimals.
    ConstraintMintDecimals,
    /// The rewards mint's authority is not the marketplace.
    ConstraintMintMintAuthority,
    /// A token account is not held by the party it belongs to.
    ConstraintTokenOwner,
    /// A token account is not at the associated address of its holder for the mint.
    ConstraintAssociated,
    /// A token account is not owned by the token program passed.
    ConstraintAssociatedTokenTokenProgram,
}

} // verus!
