use vstd::prelude::*;
use crate::address::{holds, option_holds, Address};
use crate::constants::MINT_DECIMALS;
use crate::cpi::{one_request, plan_view, two_requests, Cpi, PdaSigner};
use crate::error::{ConstraintError, MarketplaceError};
use crate::fees::{fee_share, sale_split};
use crate::listing::{check_listing_links, listing_links, release_asset, release_asset_request};
use crate::state::{
    check_token_account, token_account_links, Listing, MarketPlace, MintState, TokenAccountState,
};

verus! {

/// Whether `mint` is a rewards mint of the marketplace at `marketplace_key`: it has
/// `MINT_DECIMALS` decimals, then the marketplace is its mint authority.
pub open spec fn rewards_mint_links(mint: MintState, marketplace_key: Address) -> Result<
    (),
    ConstraintError,
> {
    if mint.decimals != MINT_DECIMALS {
        Err(ConstraintError::ConstraintMintDecimals)
    } else if !holds(mint.mint_authority, marketplace_key) {
        Err(ConstraintError::ConstraintMintMintAuthority)
    } else {
        Ok(())
    }
}

/// Checks that `mint` is a rewards mint of the marketplace at `marketplace_key`.
pub fn check_rewards_mint(mint: &MintState, marketplace_key: &Address) -> (r: Result<
    (),
    ConstraintError,
>)
    ensures
        r == rewards_mint_links(*mint, *marketplace_key),
{
    if mint.decimals != MINT_DECIMALS {
        return Err(ConstraintError::ConstraintMintDecimals);
    }
    if !option_holds(&mint.mint_authority, marketplace_key) {
        return Err(ConstraintError::ConstraintMintMintAuthority);
    }
    Ok(())
}

/// The marketplace, signing as itself, mints `amount` reward tokens into `to`.
pub open spec fn reward(
    marketplace: MarketPlace,
    marketplace_key: Address,
    rewards_mint: MintState,
    to: Address,
    amount: u64,
) -> Cpi {
    Cpi::MintTokens {
        mint: rewards_mint.key,
        to,
        authority: marketplace_key,
        amount,
        decimals: MINT_DECIMALS,
        signer: PdaSigner::Marketplace { name: marketplace.name, bump: marketplace.bump },
    }
}

/// Plans the minting of `amount` reward tokens into `to`.
pub fn reward_request(
    marketplace: &MarketPlace,
    marketplace_key: &Address,
    rewards_mint: &MintState,
    to: &Address,
    amount: u64,
) -> (r: Vec<Cpi>)
    ensures
        r@ == seq![reward(*marketplace, *marketplace_key, *rewards_mint, *to, amount)],
{
    one_request(
        Cpi::MintTokens {
            mint: rewards_mint.key,
            to: *to,
            authority: *marketplace_key,
            amount,
            decimals: MINT_DECIMALS,
            signer: PdaSigner::Marketplace { name: marketplace.name.clone(), bump: marketplace.bump },
        },
    )
}

/// Buying a listed asset with tokens: the signing taker, the maker, the marketplace, its
/// treasury, the asset (and its collection, if any), the listing, the mints, and the
/// token accounts that pay and receive.
#[derive(Debug, PartialEq, Eq)]
pub struct BuyWithToken {
    pub taker: Address,
    pub maker: Address,
    pub marketplace: MarketPlace,
    pub marketplace_key: Address,
    pub treasury: Address,
    pub asset: Address,
    pub collection: Option<Address>,
    pub listing: Listing,
    pub listing_key: Address,
    pub payment_mint: MintState,
    /// The token program that the token accounts belong to.
    pub token_program: Address,
    pub rewards_mint: MintState,
    pub taker_payment_ata: TokenAccountState,
    pub maker_payment_ata: Address,
    pub treasury_payment_ata: Address,
    pub taker_reward_ata: Address,
}

impl BuyWithToken {
    /// The listing must be the maker's and the asset's, be priced in the mint passed, the
    /// rewards mint must be the marketplace's, and the paying account must be the taker's
    /// account for the payment mint; the first relation that fails is reported.
    pub open spec fn spec_check_accounts(self) -> Result<(), ConstraintError> {
        match listing_links(self.listing, self.maker, self.asset) {
            Err(e) => Err(e),
            Ok(_) => if !holds(self.listing.payment_mint, self.payment_mint.key) {
                Err(ConstraintError::ConstraintRaw)
            } else {
                match rewards_mint_links(self.rewards_mint, self.marketplace_key) {
                    Err(e) => Err(e),
                    Ok(_) => token_account_links(self.taker_payment_ata, self.taker, self.payment_mint.key, self.token_program),
                }
            },
        }
    }

    /// Checks the relations among the accounts of the purchase.
    pub fn check_accounts(&self) -> (r: Result<(), ConstraintError>)
        ensures
            r == self.spec_check_accounts(),
    {
        check_listing_links(&self.listing, &self.maker, &self.asset)?;
        if !option_holds(&self.listing.payment_mint, &self.payment_mint.key) {
            return Err(ConstraintError::ConstraintRaw);
        }
        check_rewards_mint(&self.rewards_mint, &self.marketplace_key)?;
        check_token_account(&self.taker_payment_ata, &self.taker, &self.payment_mint.key, &self.token_program)
    }

    /// The taker pays `amount` tokens into `to`.
    pub open spec fn payment(self, to: Address, amount: u64) -> Cpi {
        Cpi::TransferTokens {
            from: self.taker_payment_ata.key,
            mint: self.payment_mint.key,
            to,
            authority: self.taker,
            amount,
            decimals: self.payment_mint.decimals,
            signer: PdaSigner::Unsigned,
        }
    }

    /// The price is split between the maker and the treasury as `sale_split` says, the
    /// maker's share first.
    pub open spec fn spec_send_tokens(self) -> Result<Seq<Cpi>, MarketplaceError> {
        match sale_split(self.listing.price, self.marketplace.fee) {
            Err(e) => Err(e),
            Ok((to_maker, fee)) => Ok(
                seq![
                    self.payment(self.maker_payment_ata, to_maker),
                    self.payment(self.treasury_payment_ata, fee),
                ],
            ),
        }
    }

    /// Decides the payment of the listing's price and plans its two transfers.
    pub fn send_tokens(&self) -> (r: Result<Vec<Cpi>, MarketplaceError>)
        ensures
            plan_view(r) == self.spec_send_tokens(),
    {
        let price = self.listing.price;
        if price == 0 {
            return Err(MarketplaceError::InvalidPrice);
        }
        let fee = fee_share(price, self.marketplace.fee);
        if fee >= price {
            return Err(MarketplaceError::InvalidFee);
        }
        let maker_amount = price - fee;
        Ok(
            two_requests(
                Cpi::TransferTokens {
                    from: self.taker_payment_ata.key,
                    mint: self.payment_mint.key,
                    to: self.maker_payment_ata,
                    authority: self.taker,
                    amount: maker_amount,
                    decimals: self.payment_mint.decimals,
                    signer: PdaSigner::Unsigned,
                },
                Cpi::TransferTokens {
                    from: self.taker_payment_ata.key,
                    mint: self.payment_mint.key,
                    to: self.treasury_payment_ata,
                    authority: self.taker,
                    amount: fee,
                    decimals: self.payment_mint.decimals,
                    signer: PdaSigner::Unsigned,
                },
            ),
        )
    }

    /// Plans the listing account's hand-over of the asset to the taker.
    pub fn receive_nft(&self) -> (r: Vec<Cpi>)
        ensures
            r@ == seq![
                release_asset(
                    self.asset,
                    self.collection,
                    self.listing,
                    self.listing_key,
                    self.taker,
                    self.taker,
                ),
            ],
    {
        release_asset_request(
            &self.asset,
            &self.collection,
            &self.listing,
            &self.listing_key,
            &self.taker,
            &self.taker,
        )
    }

    /// Plans the minting of as many reward tokens as the price into the taker's account.
    pub fn receive_rewards(&self) -> (r: Vec<Cpi>)
        ensures
            r@ == seq![
                reward(
                    self.marketplace,
                    self.marketplace_key,
                    self.rewards_mint,
                    self.taker_reward_ata,
                    self.listing.price,
                ),
            ],
    {
        reward_request(
            &self.marketplace,
            &self.marketplace_key,
            &self.rewards_mint,
            &self.taker_reward_ata,
            self.listing.price,
        )
    }
}

} // verus!
