//! The rules of an NFT marketplace: who may list, buy, offer and claim fees, what each
//! step records, and which transfers, mints and closes it asks the token and asset
//! programs to perform.
use vstd::prelude::*;

pub mod address;
pub mod constants;
pub mod error;
pub mod state;
pub mod cpi;
pub mod fees;
pub mod name;
pub mod admin;
pub mod listing;
pub mod buy;
pub mod offer;
pub mod laws;

verus! {

} // verus!
