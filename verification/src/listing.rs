use vstd::prelude::*;
use crate::address::Address;
use crate::cpi::{one_request, plan_view, Cpi, PdaSigner};
use crate::error::{ConstraintError, MarketplaceError};
use crate::state::Listing;

verus! {

/// The bump of the listing account being created.
#[derive(Debug, Clone, Copy, PartialEq, Eq)]
pub struct ListBumps {
    pub listing: u8,
}

/// Listing an asset: the signing maker, the asset (and its collection, if any), the
/// listing record being set up and its address, and the mint the price is in (none for
/// lamports).
#[derive(Debug, Clone, Copy, PartialEq, Eq)]
pub struct List {
    pub maker: Address,
    pub asset: Address,
    pub collection: Option<Address>,
    pub listing: Listing,
    pub listing_key: Address,
    pub payment_mint: Option<Address>,
}

impl List {
    /// The record of the maker's listing at `price`.
    pub open spec fn listed(self, price: u64, bump: u8) -> Listing {
        Listing {
            maker: self.maker,
            asset: self.asset,
            price,
            bump,
            payment_mint: self.payment_mint,
        }
    }

    /// The maker hands the asset to the listing account.
    pub open spec fn escrow(self) -> Cpi {
        Cpi::TransferAsset {
            asset: self.asset,
            collection: self.collection,
            payer: self.maker,
            authority: self.maker,
            new_owner: self.listing_key,
            signer: PdaSigner::Unsigned,
        }
    }

    /// Refuses a zero price; otherwise records the listing and plans the escrow of the
    /// asset.
    pub fn create_listing(&mut self, price: u64, bumps: &ListBumps) -> (r: Result<
        Vec<Cpi>,
        MarketplaceError,
    >)
        ensures
            price == 0 ==> r is Err && r->Err_0 == MarketplaceError::InvalidPrice && *final(self)
                == *old(self),
            price > 0 ==> {
                &&& plan_view(r) == Ok::<Seq<Cpi>, MarketplaceError>(seq![old(self).escrow()])
                &&& *final(self) == (List {
                    listing: old(self).listed(price, bumps.listing),
                    ..*old(self)
                })
            },
    {
        if price == 0 {
            return Err(MarketplaceError::InvalidPrice);
        }
        self.listing = Listing {
            maker: self.maker,
            asset: self.asset,
            price,
            bump: bumps.listing,
            payment_mint: self.payment_mint,
        };
        Ok(
            one_request(
                Cpi::TransferAsset {
                    asset: self.asset,
                    collection: self.collection,
                    payer: self.maker,
                    authority: self.maker,
                    new_owner: self.listing_key,
                    signer: PdaSigner::Unsigned,
                },
            ),
        )
    }
}

/// Whether `listing` was made by `maker` for `asset`: the maker first, then the asset.
pub open spec fn listing_links(listing: Listing, maker: Address, asset: Address) -> Result<
    (),
    ConstraintError,
> {
    if listing.maker != maker {
        Err(ConstraintError::ConstraintHasOne)
    } else if listing.asset != asset {
        Err(ConstraintError::ConstraintHasOne)
    } else {
        Ok(())
    }
}

/// Checks that `listing` was made by `maker` for `asset`.
pub fn check_listing_links(listing: &Listing, maker: &Address, asset: &Address) -> (r: Result<
    (),
    ConstraintError,
>)
    ensures
        r == listing_links(*listing, *maker, *asset),
{
    if !listing.maker.same_as(maker) {
        return Err(ConstraintError::ConstraintHasOne);
    }
    if !listing.asset.same_as(asset) {
        return Err(ConstraintError::ConstraintHasOne);
    }
    Ok(())
}

/// The listing account, signing as itself, hands the asset to `new_owner`, `payer`
/// paying for the transfer.
pub open spec fn release_asset(
    asset: Address,
    collection: Option<Address>,
    listing: Listing,
    listing_key: Address,
    payer: Address,
    new_owner: Address,
) -> Cpi {
    Cpi::TransferAsset {
        asset,
        collection,
        payer,
        authority: listing_key,
        new_owner,
        signer: PdaSigner::Listing { asset, bump: listing.bump },
    }
}

/// Plans the listing account's hand-over of the asset to `new_owner`.
pub fn release_asset_request(
    asset: &Address,
    collection: &Option<Address>,
    listing: &Listing,
    listing_key: &Address,
    payer: &Address,
    new_owner: &Address,
) -> (r: Vec<Cpi>)
    ensures
        r@ == seq![
            release_asset(*asset, *collection, *listing, *listing_key, *payer, *new_owner),
        ],
{
    one_request(
        Cpi::TransferAsset {
            asset: *asset,
            collection: *collection,
            payer: *payer,
            authority: *listing_key,
            new_owner: *new_owner,
            signer: PdaSigner::Listing { asset: *asset, bump: listing.bump },
        },
    )
}

/// Withdrawing a listing: the signing maker, the asset (and its collection, if any), and
/// the listing record and its address.
#[derive(Debug, Clone, Copy, PartialEq, Eq)]
pub struct Delist {
    pub maker: Address,
    pub asset: Address,
    pub collection: Option<Address>,
    pub listing: Listing,
    pub listing_key: Address,
}

impl Delist {
    /// Only the maker of the listing may withdraw it, and only for its asset.
    pub open spec fn spec_check_accounts(self) -> Result<(), ConstraintError> {
        listing_links(self.listing, self.maker, self.asset)
    }

    /// Checks that the signer made the listing and that it is the asset's.
    pub fn check_accounts(&self) -> (r: Result<(), ConstraintError>)
        ensures
            r == self.spec_check_accounts(),
    {
        check_listing_links(&self.listing, &self.maker, &self.asset)
    }

    /// Plans the return of the asset from the listing account to the maker.
    pub fn cancel_listing(&self) -> (r: Vec<Cpi>)
        ensures
            r@ == seq![
                release_asset(
                    self.asset,
                    self.collection,
                    self.listing,
                    self.listing_key,
                    self.maker,
                    self.maker,
                ),
            ],
    {
        release_asset_request(
            &self.asset,
            &self.collection,
            &self.listing,
            &self.listing_key,
            &self.maker,
            &self.maker,
        )
    }
}

} // verus!
