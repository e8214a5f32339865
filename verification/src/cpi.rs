use vstd::prelude::*;
use vstd::utf8::encode_utf8;
use crate::address::Address;
use crate::constants::{LISTING, MARKETPLACE, OFFER, OFFER_VAULT, TREASURY};

verus! {

/// The program-derived account, if any, that signs a request: each is named by its seeds.
#[derive(Debug, PartialEq, Eq)]
pub enum PdaSigner {
    /// The request carries no program signature.
    Unsigned,
    /// The marketplace account, derived from its name.
    Marketplace { name: String, bump: u8 },
    /// The treasury of a marketplace.
    Treasury { marketplace: Address, bump: u8 },
    /// The listing account of an asset.
    Listing { asset: Address, bump: u8 },
    /// The offer account of a buyer on an asset.
    Offer { asset: Address, buyer: Address, bump: u8 },
    /// The lamport vault of a buyer's offer on an asset.
    OfferVault { asset: Address, buyer: Address, bump: u8 },
}

impl PdaSigner {
    /// The seeds that sign for the account, the bump last.
    pub open spec fn spec_seeds(self) -> Seq<Seq<u8>> {
        match self {
            PdaSigner::Unsigned => Seq::empty(),
            PdaSigner::Marketplace { name, bump } => seq![
                MARKETPLACE@,
                encode_utf8(name@),
                seq![bump],
            ],
            PdaSigner::Treasury { marketplace, bump } => seq![
                TREASURY@,
                marketplace.seed(),
                seq![bump],
            ],
            PdaSigner::Listing { asset, bump } => seq![LISTING@, asset.seed(), seq![bump]],
            PdaSigner::Offer { asset, buyer, bump } => seq![
                OFFER@,
                asset.seed(),
                buyer.seed(),
                seq![bump],
            ],
            PdaSigner::OfferVault { asset, buyer, bump } => seq![
                OFFER_VAULT@,
                asset.seed(),
                buyer.seed(),
                seq![bump],
            ],
        }
    }

    /// The seeds that sign for the account, the bump last.
    pub fn seeds(&self) -> (r: Vec<Vec<u8>>)
        ensures
            seeds_view(r@) == self.spec_seeds(),
    {
        let mut r: Vec<Vec<u8>> = Vec::new();
        match self {
            PdaSigner::Unsigned => {},
            PdaSigner::Marketplace { name, bump } => {
                r.push(bytes_of(&MARKETPLACE));
                r.push(bytes_of(name.as_str().as_bytes()));
                r.push(bump_seed(*bump));
            },
            PdaSigner::Treasury { marketplace, bump } => {
                r.push(bytes_of(&TREASURY));
                r.push(marketplace.to_seed());
                r.push(bump_seed(*bump));
            },
            PdaSigner::Listing { asset, bump } => {
                r.push(bytes_of(&LISTING));
                r.push(asset.to_seed());
                r.push(bump_seed(*bump));
            },
            PdaSigner::Offer { asset, buyer, bump } => {
                r.push(bytes_of(&OFFER));
                r.push(asset.to_seed());
                r.push(buyer.to_seed());
                r.push(bump_seed(*bump));
            },
            PdaSigner::OfferVault { asset, buyer, bump } => {
                r.push(bytes_of(&OFFER_VAULT));
                r.push(asset.to_seed());
                r.push(buyer.to_seed());
                r.push(bump_seed(*bump));
            },
        }
        assert(seeds_view(r@) =~= self.spec_seeds());
        r
    }
}

/// The one-byte seed holding a bump.
fn bump_seed(bump: u8) -> (r: Vec<u8>)
    ensures
        r@ == seq![bump],
{
    let mut v: Vec<u8> = Vec::new();
    v.push(bump);
    assert(v@ =~= seq![bump]);
    v
}

/// The byte strings held by a vector of seeds.
pub open spec fn seeds_view(r: Seq<Vec<u8>>) -> Seq<Seq<u8>> {
    r.map_values(|v: Vec<u8>| v@)
}

/// A copy of a byte slice.
fn bytes_of(s: &[u8]) -> (r: Vec<u8>)
    ensures
        r@ == s@,
{
    let mut v: Vec<u8> = Vec::new();
    v.extend_from_slice(s);
    v
}

/// A request that the marketplace makes of another program.
#[derive(Debug, PartialEq, Eq)]
pub enum Cpi {
    /// Move `lamports` from `from` to `to` (system program).
    TransferLamports { from: Address, to: Address, lamports: u64, signer: PdaSigner },
    /// Move `amount` tokens of `mint` from `from` to `to`, on `authority`'s signature.
    TransferTokens {
        from: Address,
        mint: Address,
        to: Address,
        authority: Address,
        amount: u64,
        decimals: u8,
        signer: PdaSigner,
    },
    /// Mint `amount` new tokens of `mint` into `to`, on `authority`'s signature.
    MintTokens {
        mint: Address,
        to: Address,
        authority: Address,
        amount: u64,
        decimals: u8,
        signer: PdaSigner,
    },
    /// Close the token account `account`, its lamports going to `destination`.
    CloseTokenAccount {
        account: Address,
        destination: Address,
        authority: Address,
        signer: PdaSigner,
    },
    /// Give `asset` (of `collection`, if any) to `new_owner`, on `authority`'s signature.
    TransferAsset {
        asset: Address,
        collection: Option<Address>,
        payer: Address,
        authority: Address,
        new_owner: Address,
        signer: PdaSigner,
    },
}

/// The requests of an outcome, taken as a sequence.
pub open spec fn plan_view<E>(r: Result<Vec<Cpi>, E>) -> Result<Seq<Cpi>, E> {
    match r {
        Ok(v) => Ok(v@),
        Err(e) => Err(e),
    }
}

} // verus!

verus! {

/// A plan of one request.
pub fn one_request(c: Cpi) -> (r: Vec<Cpi>)
    ensures
        r@ == seq![c],
{
    let mut v: Vec<Cpi> = Vec::new();
    v.push(c);
    assert(v@ =~= seq![c]);
    v
}

/// A plan of two requests, in order.
pub fn two_requests(first: Cpi, second: Cpi) -> (r: Vec<Cpi>)
    ensures
        r@ == seq![first, second],
{
    let mut v: Vec<Cpi> = Vec::new();
    v.push(first);
    v.push(second);
    assert(v@ =~= seq![first, second]);
    v
}

} // verus!

verus! {

/// The lamports that the requests of `plan` move out of `account`.
pub open spec fn lamports_out(plan: Seq<Cpi>, account: Address) -> int
    decreases plan.len(),
{
    if plan.len() == 0 {
        0
    } else {
        lamports_out(plan.drop_last(), account) + match plan.last() {
            Cpi::TransferLamports { from, lamports, .. } => if from == account {
                lamports as int
            } else {
                0
            },
            _ => 0,
        }
    }
}

/// The lamports that the requests of `plan` move into `account`.
pub open spec fn lamports_in(plan: Seq<Cpi>, account: Address) -> int
    decreases plan.len(),
{
    if plan.len() == 0 {
        0
    } else {
        lamports_in(plan.drop_last(), account) + match plan.last() {
            Cpi::TransferLamports { to, lamports, .. } => if to == account {
                lamports as int
            } else {
                0
            },
            _ => 0,
        }
    }
}

/// The tokens that the requests of `plan` move out of the token account `account`.
pub open spec fn tokens_out(plan: Seq<Cpi>, account: Address) -> int
    decreases plan.len(),
{
    if plan.len() == 0 {
        0
    } else {
        tokens_out(plan.drop_last(), account) + match plan.last() {
            Cpi::TransferTokens { from, amount, .. } => if from == account {
                amount as int
            } else {
                0
            },
            _ => 0,
        }
    }
}

/// The tokens that the requests of `plan` move or mint into the token account `account`.
pub open spec fn tokens_in(plan: Seq<Cpi>, account: Address) -> int
    decreases plan.len(),
{
    if plan.len() == 0 {
        0
    } else {
        tokens_in(plan.drop_last(), account) + match plan.last() {
            Cpi::TransferTokens { to, amount, .. } => if to == account {
                amount as int
            } else {
                0
            },
            Cpi::MintTokens { to, amount, .. } => if to == account {
                amount as int
            } else {
                0
            },
            _ => 0,
        }
    }
}

} // verus!
