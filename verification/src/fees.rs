use vstd::prelude::*;
use crate::constants::MAX_FEE_BASIS_POINTS;
use crate::error::MarketplaceError;

verus! {

/// The low 64 bits of a non-negative value.
pub open spec fn low_u64(x: int) -> u64 {
    (x % 0x1_0000_0000_0000_0000) as u64
}

/// The marketplace's fee on `amount` at `fee_bps` basis points: the product divided by
/// `MAX_FEE_BASIS_POINTS`, rounded down, kept to 64 bits.
pub open spec fn fee_of(amount: u64, fee_bps: u16) -> u64 {
    low_u64(amount * fee_bps / (MAX_FEE_BASIS_POINTS as int))
}

/// The marketplace's fee on `amount` at `fee_bps` basis points, computed in 128 bits and
/// narrowed to 64 bits.
pub fn fee_share(amount: u64, fee_bps: u16) -> (r: u64)
    ensures
        r == fee_of(amount, fee_bps),
{
    let wide_amount: u128 = amount as u128;
    let wide_bps: u128 = fee_bps as u128;
    assert(wide_amount * wide_bps <= 0xffff_ffff_ffff_ffff * 0xffff) by (nonlinear_arith)
        requires
            wide_amount <= 0xffff_ffff_ffff_ffff,
            wide_bps <= 0xffff,
    ;
    let product: u128 = wide_amount * wide_bps;
    let quotient: u128 = product / (MAX_FEE_BASIS_POINTS as u128);
    let fee: u64 = #[verifier::truncate] (quotient as u64);
    assert(fee == (quotient % 0x1_0000_0000_0000_0000) as u64) by (bit_vector)
        requires
            fee == #[verifier::truncate] (quotient as u64),
    ;
    fee
}

/// What a sale at `price` pays the seller and the treasury, or why it is refused: a zero
/// price is refused, and so is a fee that is not below the price.
pub open spec fn sale_split(price: u64, fee_bps: u16) -> Result<(u64, u64), MarketplaceError> {
    let fee = fee_of(price, fee_bps);
    if price == 0 {
        Err(MarketplaceError::InvalidPrice)
    } else if fee >= price {
        Err(MarketplaceError::InvalidFee)
    } else {
        Ok(((price - fee) as u64, fee))
    }
}

/// What an accepted offer of `amount` pays the seller and the treasury, or why it is
/// refused: a zero amount is refused, and so is a fee above the amount.
pub open spec fn offer_split(amount: u64, fee_bps: u16) -> Result<(u64, u64), MarketplaceError> {
    let fee = fee_of(amount, fee_bps);
    if amount == 0 {
        Err(MarketplaceError::InvalidPrice)
    } else if fee > amount {
        Err(MarketplaceError::MathOverflow)
    } else {
        Ok(((amount - fee) as u64, fee))
    }
}

} // verus!
