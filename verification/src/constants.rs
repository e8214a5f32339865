use vstd::prelude::*;

verus! {

/// Seed prefix of a marketplace account: `b"marketplace"`.
pub const MARKETPLACE: [u8; 11] = [109, 97, 114, 107, 101, 116, 112, 108, 97, 99, 101];

/// Seed prefix of a marketplace's treasury account: `b"treasury"`.
pub const TREASURY: [u8; 8] = [116, 114, 101, 97, 115, 117, 114, 121];

/// Seed prefix of the listing account of an asset: `b"listing"`.
pub const LISTING: [u8; 7] = [108, 105, 115, 116, 105, 110, 103];

/// Seed prefix of a marketplace's rewards mint: `b"rewards"`.
pub const REWARDS_MINT: [u8; 7] = [114, 101, 119, 97, 114, 100, 115];

/// Seed prefix of an offer account: `b"offer"`.
pub const OFFER: [u8; 5] = [111, 102, 102, 101, 114];

/// Seed prefix of the lamport vault of a SOL offer: `b"offer_vault"`.
pub const OFFER_VAULT: [u8; 11] = [111, 102, 102, 101, 114, 95, 118, 97, 117, 108, 116];

/// Decimals of the rewards mint.
pub const MINT_DECIMALS: u8 = 6;

/// Largest length, in bytes, of a marketplace name.
pub const MAX_NAME_LENGTH: u8 = 30;

/// The basis-point denominator: a fee of `MAX_FEE_BASIS_POINTS` would take the whole
/// amount (the same cap as SPL Token-2022's transfer-fee extension).
pub const MAX_FEE_BASIS_POINTS: u16 = 10000;

} // verus!
