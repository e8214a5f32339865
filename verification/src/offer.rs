use vstd::prelude::*;
use crate::address::{holds, option_holds, Address};
use crate::buy::{check_rewards_mint, reward, reward_request, rewards_mint_links};
use crate::cpi::{one_request, plan_view, two_requests, Cpi, PdaSigner};
use crate::error::{ConstraintError, MarketplaceError};
use crate::fees::{fee_share, offer_split};
use crate::listing::{check_listing_links, listing_links, release_asset, release_asset_request};
use crate::state::{
    check_token_account, token_account_links, Listing, MarketPlace, MintState, Offer,
    TokenAccountState,
};

verus! {

/// Whether `offer` was made by `buyer` for `asset`: the buyer first, then the asset.
pub open spec fn offer_links(offer: Offer, buyer: Address, asset: Address) -> Result<
    (),
    ConstraintError,
> {
    if offer.buyer != buyer {
        Err(ConstraintError::ConstraintHasOne)
    } else if offer.asset != asset {
        Err(ConstraintError::ConstraintHasOne)
    } else {
        Ok(())
    }
}

/// Checks that `offer` was made by `buyer` for `asset`.
pub fn check_offer_links(offer: &Offer, buyer: &Address, asset: &Address) -> (r: Result<
    (),
    ConstraintError,
>)
    ensures
        r == offer_links(*offer, *buyer, *asset),
{
    if !offer.buyer.same_as(buyer) {
        return Err(ConstraintError::ConstraintHasOne);
    }
    if !offer.asset.same_as(asset) {
        return Err(ConstraintError::ConstraintHasOne);
    }
    Ok(())
}

/// The signer of the offer account of `buyer` on `asset`.
pub open spec fn offer_signer(offer: Offer, asset: Address, buyer: Address) -> PdaSigner {
    PdaSigner::Offer { asset, buyer, bump: offer.bump }
}

/// The signer of the lamport vault of `buyer`'s offer on `asset`.
pub open spec fn vault_signer(offer: Offer, asset: Address, buyer: Address) -> PdaSigner {
    PdaSigner::OfferVault { asset, buyer, bump: offer.vault_bump->0 }
}

/// The bumps of the accounts that a lamport offer derives.
#[derive(Debug, Clone, Copy, PartialEq, Eq)]
pub struct MakeSolOfferBumps {
    pub offer: u8,
    pub offer_vault: u8,
}

/// Making a lamport offer: the signing buyer, the asset, the offer record being set up,
/// and the vault that holds the lamports.
#[derive(Debug, Clone, Copy, PartialEq, Eq)]
pub struct MakeSolOffer {
    pub buyer: Address,
    pub asset: Address,
    pub offer: Offer,
    pub offer_vault: Address,
}

impl MakeSolOffer {
    /// The record of the buyer's lamport offer of `amount`.
    pub open spec fn offered(self, amount: u64, bumps: MakeSolOfferBumps) -> Offer {
        Offer {
            buyer: self.buyer,
            asset: self.asset,
            amount,
            bump: bumps.offer,
            vault_bump: Some(bumps.offer_vault),
            payment_mint: None,
        }
    }

    /// Refuses a zero amount; otherwise records the offer.
    pub fn init_offer(&mut self, amount: u64, bumps: &MakeSolOfferBumps) -> (r: Result<
        (),
        MarketplaceError,
    >)
        ensures
            amount == 0 ==> r == Err::<(), MarketplaceError>(MarketplaceError::InvalidPrice)
                && *final(self) == *old(self),
            amount > 0 ==> r == Ok::<(), MarketplaceError>(()) && *final(self) == (MakeSolOffer {
                offer: old(self).offered(amount, *bumps),
                ..*old(self)
            }),
    {
        if amount == 0 {
            return Err(MarketplaceError::InvalidPrice);
        }
        self.offer = Offer {
            buyer: self.buyer,
            asset: self.asset,
            amount,
            bump: bumps.offer,
            vault_bump: Some(bumps.offer_vault),
            payment_mint: None,
        };
        Ok(())
    }

    /// The buyer moves `amount` lamports into the vault.
    pub open spec fn deposit(self, amount: u64) -> Cpi {
        Cpi::TransferLamports {
            from: self.buyer,
            to: self.offer_vault,
            lamports: amount,
            signer: PdaSigner::Unsigned,
        }
    }

    /// Plans the deposit of `amount` lamports into the vault.
    pub fn deposit_sol(&self, amount: u64) -> (r: Vec<Cpi>)
        ensures
            r@ == seq![self.deposit(amount)],
    {
        one_request(
            Cpi::TransferLamports {
                from: self.buyer,
                to: self.offer_vault,
                lamports: amount,
                signer: PdaSigner::Unsigned,
            },
        )
    }
}

/// The bump of the offer account that a token offer derives.
#[derive(Debug, Clone, Copy, PartialEq, Eq)]
pub struct MakeTokenOfferBumps {
    pub offer: u8,
}

/// Making a token offer: the signing buyer, the asset, the offer record being set up and
/// its address, the mint, the buyer's token account and the vault's.
#[derive(Debug, Clone, Copy, PartialEq, Eq)]
pub struct MakeTokenOffer {
    pub buyer: Address,
    pub asset: Address,
    pub offer: Offer,
    pub offer_key: Address,
    pub payment_mint: MintState,
    /// The token program that the token accounts belong to.
    pub token_program: Address,
    pub buyer_payment_ata: TokenAccountState,
    pub offer_vault_ata: Address,
}

impl MakeTokenOffer {
    /// The paying token account must be the buyer's account for the payment mint.
    pub open spec fn spec_check_accounts(self) -> Result<(), ConstraintError> {
        token_account_links(self.buyer_payment_ata, self.buyer, self.payment_mint.key, self.token_program)
    }

    /// Checks that the paying token account is the buyer's account for the payment mint.
    pub fn check_accounts(&self) -> (r: Result<(), ConstraintError>)
        ensures
            r == self.spec_check_accounts(),
    {
        check_token_account(&self.buyer_payment_ata, &self.buyer, &self.payment_mint.key, &self.token_program)
    }

    /// The record of the buyer's token offer of `amount`.
    pub open spec fn offered(self, amount: u64, bumps: MakeTokenOfferBumps) -> Offer {
        Offer {
            buyer: self.buyer,
            asset: self.asset,
            amount,
            bump: bumps.offer,
            vault_bump: None,
            payment_mint: Some(self.payment_mint.key),
        }
    }

    /// Refuses a zero amount; otherwise records the offer.
    pub fn init_offer(&mut self, amount: u64, bumps: &MakeTokenOfferBumps) -> (r: Result<
        (),
        MarketplaceError,
    >)
        ensures
            amount == 0 ==> r == Err::<(), MarketplaceError>(MarketplaceError::InvalidPrice)
                && *final(self) == *old(self),
            amount > 0 ==> r == Ok::<(), MarketplaceError>(()) && *final(self) == (
            MakeTokenOffer { offer: old(self).offered(amount, *bumps), ..*old(self) }),
    {
        if amount == 0 {
            return Err(MarketplaceError::InvalidPrice);
        }
        self.offer = Offer {
            buyer: self.buyer,
            asset: self.asset,
            amount,
            bump: bumps.offer,
            vault_bump: None,
            payment_mint: Some(self.payment_mint.key),
        };
        Ok(())
    }

    /// The buyer moves `amount` tokens into the vault's token account.
    pub open spec fn deposit(self, amount: u64) -> Cpi {
        Cpi::TransferTokens {
            from: self.buyer_payment_ata.key,
            mint: self.payment_mint.key,
            to: self.offer_vault_ata,
            authority: self.buyer,
            amount,
            decimals: self.payment_mint.decimals,
            signer: PdaSigner::Unsigned,
        }
    }

    /// Plans the deposit of `amount` tokens into the vault's token account.
    pub fn deposit_tokens(&self, amount: u64) -> (r: Vec<Cpi>)
        ensures
            r@ == seq![self.deposit(amount)],
    {
        one_request(
            Cpi::TransferTokens {
                from: self.buyer_payment_ata.key,
                mint: self.payment_mint.key,
                to: self.offer_vault_ata,
                authority: self.buyer,
                amount,
                decimals: self.payment_mint.decimals,
                signer: PdaSigner::Unsigned,
            },
        )
    }
}

/// Withdrawing a lamport offer: the signing buyer, the asset, the offer record, and the
/// vault with its lamports.
#[derive(Debug, Clone, Copy, PartialEq, Eq)]
pub struct CancelSolOffer {
    pub buyer: Address,
    pub asset: Address,
    pub offer: Offer,
    pub offer_vault: Address,
    pub offer_vault_lamports: u64,
}

impl CancelSolOffer {
    /// Only the buyer who made the offer may withdraw it, and only for its asset.
    pub open spec fn spec_check_accounts(self) -> Result<(), ConstraintError> {
        offer_links(self.offer, self.buyer, self.asset)
    }

    /// Checks that the signer made the offer and that it is the asset's.
    pub fn check_accounts(&self) -> (r: Result<(), ConstraintError>)
        ensures
            r == self.spec_check_accounts(),
    {
        check_offer_links(&self.offer, &self.buyer, &self.asset)
    }

    /// The vault, signing as itself, returns all its lamports to the buyer.
    pub open spec fn refund(self) -> Cpi {
        Cpi::TransferLamports {
            from: self.offer_vault,
            to: self.buyer,
            lamports: self.offer_vault_lamports,
            signer: vault_signer(self.offer, self.asset, self.buyer),
        }
    }

    /// Plans the return of the vault's lamports to the buyer.
    pub fn refund_sol(&self) -> (r: Vec<Cpi>)
        requires
            self.offer.vault_bump is Some,
        ensures
            r@ == seq![self.refund()],
    {
        let vault_bump = match self.offer.vault_bump {
            Some(b) => b,
            None => 0,
        };
        one_request(
            Cpi::TransferLamports {
                from: self.offer_vault,
                to: self.buyer,
                lamports: self.offer_vault_lamports,
                signer: PdaSigner::OfferVault { asset: self.asset, buyer: self.buyer, bump: vault_bump },
            },
        )
    }
}

/// Withdrawing a token offer: the signing buyer, the asset, the offer record and its
/// address, the mint, the buyer's token account and the vault's.
#[derive(Debug, Clone, Copy, PartialEq, Eq)]
pub struct CancelTokenOffer {
    pub buyer: Address,
    pub asset: Address,
    pub offer: Offer,
    pub offer_key: Address,
    pub payment_mint: MintState,
    /// The token program that the token accounts belong to.
    pub token_program: Address,
    pub buyer_payment_ata: TokenAccountState,
    pub offer_vault_ata: TokenAccountState,
}

impl CancelTokenOffer {
    /// Only the buyer who made the offer may withdraw it, for its asset, into their token
    /// account for the mint, from the offer's own vault account for the mint.
    pub open spec fn spec_check_accounts(self) -> Result<(), ConstraintError> {
        match offer_links(self.offer, self.buyer, self.asset) {
            Err(e) => Err(e),
            Ok(_) => match token_account_links(self.buyer_payment_ata, self.buyer, self.payment_mint.key, self.token_program) {
                Err(e) => Err(e),
                Ok(_) => token_account_links(self.offer_vault_ata, self.offer_key, self.payment_mint.key, self.token_program),
            },
        }
    }

    /// Checks the relations among the accounts of the withdrawal.
    pub fn check_accounts(&self) -> (r: Result<(), ConstraintError>)
        ensures
            r == self.spec_check_accounts(),
    {
        check_offer_links(&self.offer, &self.buyer, &self.asset)?;
        check_token_account(&self.buyer_payment_ata, &self.buyer, &self.payment_mint.key, &self.token_program)?;
        check_token_account(&self.offer_vault_ata, &self.offer_key, &self.payment_mint.key, &self.token_program)
    }

    /// The offer account, signing as itself, returns the vault's whole token balance.
    pub open spec fn refund(self) -> Cpi {
        Cpi::TransferTokens {
            from: self.offer_vault_ata.key,
            mint: self.payment_mint.key,
            to: self.buyer_payment_ata.key,
            authority: self.offer_key,
            amount: self.offer_vault_ata.amount,
            decimals: self.payment_mint.decimals,
            signer: offer_signer(self.offer, self.asset, self.buyer),
        }
    }

    /// Plans the return of the vault's tokens to the buyer.
    pub fn refund_tokens(&self) -> (r: Vec<Cpi>)
        ensures
            r@ == seq![self.refund()],
    {
        let amount = self.offer_vault_ata.amount;
        one_request(
            Cpi::TransferTokens {
                from: self.offer_vault_ata.key,
                mint: self.payment_mint.key,
                to: self.buyer_payment_ata.key,
                authority: self.offer_key,
                amount,
                decimals: self.payment_mint.decimals,
                signer: PdaSigner::Offer { asset: self.asset, buyer: self.buyer, bump: self.offer.bump },
            },
        )
    }

    /// The offer account, signing as itself, closes the vault in the buyer's favour.
    pub open spec fn close(self) -> Cpi {
        Cpi::CloseTokenAccount {
            account: self.offer_vault_ata.key,
            destination: self.buyer,
            authority: self.offer_key,
            signer: offer_signer(self.offer, self.asset, self.buyer),
        }
    }

    /// Plans the closing of the vault's token account.
    pub fn close_vault(&self) -> (r: Vec<Cpi>)
        ensures
            r@ == seq![self.close()],
    {
        one_request(
            Cpi::CloseTokenAccount {
                account: self.offer_vault_ata.key,
                destination: self.buyer,
                authority: self.offer_key,
                signer: PdaSigner::Offer { asset: self.asset, buyer: self.buyer, bump: self.offer.bump },
            },
        )
    }
}

/// Accepting a lamport offer on a listed asset: the signing maker, the buyer, the
/// marketplace, the asset (and its collection, if any), the listing, the offer, its vault
/// and the treasury.
#[derive(Debug, PartialEq, Eq)]
pub struct AcceptSolOffer {
    pub maker: Address,
    pub buyer: Address,
    pub marketplace: MarketPlace,
    pub asset: Address,
    pub collection: Option<Address>,
    pub listing: Listing,
    pub listing_key: Address,
    pub offer: Offer,
    pub offer_vault: Address,
    pub treasury: Address,
}

impl AcceptSolOffer {
    /// The listing must be the signer's and the asset's, then the offer the buyer's and
    /// the asset's.
    pub open spec fn spec_check_accounts(self) -> Result<(), ConstraintError> {
        match listing_links(self.listing, self.maker, self.asset) {
            Err(e) => Err(e),
            Ok(_) => offer_links(self.offer, self.buyer, self.asset),
        }
    }

    /// Checks the listing and the offer against the accounts passed.
    pub fn check_accounts(&self) -> (r: Result<(), ConstraintError>)
        ensures
            r == self.spec_check_accounts(),
    {
        check_listing_links(&self.listing, &self.maker, &self.asset)?;
        check_offer_links(&self.offer, &self.buyer, &self.asset)
    }

    /// The vault, signing as itself, pays `amount` lamports to `to`.
    pub open spec fn payout(self, to: Address, amount: u64) -> Cpi {
        Cpi::TransferLamports {
            from: self.offer_vault,
            to,
            lamports: amount,
            signer: vault_signer(self.offer, self.asset, self.buyer),
        }
    }

    /// The offer's amount is split between the maker and the treasury as `offer_split`
    /// says, the maker's share first.
    pub open spec fn spec_send_sol(self) -> Result<Seq<Cpi>, MarketplaceError> {
        match offer_split(self.offer.amount, self.marketplace.fee) {
            Err(e) => Err(e),
            Ok((to_maker, fee)) => Ok(
                seq![self.payout(self.maker, to_maker), self.payout(self.treasury, fee)],
            ),
        }
    }

    /// Decides the payment of the offer and plans its two transfers out of the vault.
    pub fn send_sol(&self) -> (r: Result<Vec<Cpi>, MarketplaceError>)
        requires
            self.offer.vault_bump is Some,
        ensures
            plan_view(r) == self.spec_send_sol(),
    {
        let amount = self.offer.amount;
        if amount == 0 {
            return Err(MarketplaceError::InvalidPrice);
        }
        let fee = fee_share(amount, self.marketplace.fee);
        if fee > amount {
            return Err(MarketplaceError::MathOverflow);
        }
        let maker_amount = amount - fee;
        let vault_bump = match self.offer.vault_bump {
            Some(b) => b,
            None => 0,
        };
        Ok(
            two_requests(
                Cpi::TransferLamports {
                    from: self.offer_vault,
                    to: self.maker,
                    lamports: maker_amount,
                    signer: PdaSigner::OfferVault {
                        asset: self.asset,
                        buyer: self.buyer,
                        bump: vault_bump,
                    },
                },
                Cpi::TransferLamports {
                    from: self.offer_vault,
                    to: self.treasury,
                    lamports: fee,
                    signer: PdaSigner::OfferVault {
                        asset: self.asset,
                        buyer: self.buyer,
                        bump: vault_bump,
                    },
                },
            ),
        )
    }

    /// Plans the listing account's hand-over of the asset to the buyer, the maker paying.
    pub fn transfer_nft(&self) -> (r: Vec<Cpi>)
        ensures
            r@ == seq![
                release_asset(
                    self.asset,
                    self.collection,
                    self.listing,
                    self.listing_key,
                    self.maker,
                    self.buyer,
                ),
            ],
    {
        release_asset_request(
            &self.asset,
            &self.collection,
            &self.listing,
            &self.listing_key,
            &self.maker,
            &self.buyer,
        )
    }
}

/// Accepting a token offer on a listed asset: the signing maker, the buyer, the
/// marketplace and its treasury, the asset (and its collection, if any), the listing, the
/// offer, the mints and the token accounts that pay and receive.
#[derive(Debug, PartialEq, Eq)]
pub struct AcceptTokenOffer {
    pub maker: Address,
    pub buyer: Address,
    pub marketplace: MarketPlace,
    pub marketplace_key: Address,
    pub treasury: Address,
    pub asset: Address,
    pub collection: Option<Address>,
    pub listing: Listing,
    pub listing_key: Address,
    pub offer: Offer,
    pub offer_key: Address,
    pub payment_mint: MintState,
    /// The token program that the token accounts belong to.
    pub token_program: Address,
    pub offer_vault_ata: TokenAccountState,
    pub maker_payment_ata: Address,
    pub treasury_payment_ata: Address,
    pub rewards_mint: MintState,
    pub buyer_reward_ata: Address,
}

impl AcceptTokenOffer {
    /// The listing must be the signer's and the asset's, the offer the buyer's and the
    /// asset's and in the mint passed, the vault account the offer's account for that mint,
    /// and the rewards mint the marketplace's; the first relation that fails is reported.
    pub open spec fn spec_check_accounts(self) -> Result<(), ConstraintError> {
        match listing_links(self.listing, self.maker, self.asset) {
            Err(e) => Err(e),
            Ok(_) => match offer_links(self.offer, self.buyer, self.asset) {
                Err(e) => Err(e),
                Ok(_) => if !holds(self.offer.payment_mint, self.payment_mint.key) {
                    Err(ConstraintError::ConstraintRaw)
                } else {
                    match token_account_links(self.offer_vault_ata, self.offer_key, self.payment_mint.key, self.token_program) {
                        Err(e) => Err(e),
                        Ok(_) => rewards_mint_links(self.rewards_mint, self.marketplace_key),
                    }
                },
            },
        }
    }

    /// Checks the relations among the accounts of the acceptance.
    pub fn check_accounts(&self) -> (r: Result<(), ConstraintError>)
        ensures
            r == self.spec_check_accounts(),
    {
        check_listing_links(&self.listing, &self.maker, &self.asset)?;
        check_offer_links(&self.offer, &self.buyer, &self.asset)?;
        if !option_holds(&self.offer.payment_mint, &self.payment_mint.key) {
            return Err(ConstraintError::ConstraintRaw);
        }
        check_token_account(&self.offer_vault_ata, &self.offer_key, &self.payment_mint.key, &self.token_program)?;
        check_rewards_mint(&self.rewards_mint, &self.marketplace_key)
    }

    /// The offer account, signing as itself, pays `amount` tokens from the vault to `to`.
    pub open spec fn payout(self, to: Address, amount: u64) -> Cpi {
        Cpi::TransferTokens {
            from: self.offer_vault_ata.key,
            mint: self.payment_mint.key,
            to,
            authority: self.offer_key,
            amount,
            decimals: self.payment_mint.decimals,
            signer: offer_signer(self.offer, self.asset, self.buyer),
        }
    }

    /// The offer's amount is split between the maker and the treasury as `offer_split`
    /// says, the maker's share first.
    pub open spec fn spec_send_tokens(self) -> Result<Seq<Cpi>, MarketplaceError> {
        match offer_split(self.offer.amount, self.marketplace.fee) {
            Err(e) => Err(e),
            Ok((to_maker, fee)) => Ok(
                seq![
                    self.payout(self.maker_payment_ata, to_maker),
                    self.payout(self.treasury_payment_ata, fee),
                ],
            ),
        }
    }

    /// Decides the payment of the offer and plans its two transfers out of the vault.
    pub fn send_tokens(&self) -> (r: Result<Vec<Cpi>, MarketplaceError>)
        ensures
            plan_view(r) == self.spec_send_tokens(),
    {
        let amount = self.offer.amount;
        if amount == 0 {
            return Err(MarketplaceError::InvalidPrice);
        }
        let fee = fee_share(amount, self.marketplace.fee);
        if fee > amount {
            return Err(MarketplaceError::MathOverflow);
        }
        let maker_amount = amount - fee;
        Ok(
            two_requests(
                Cpi::TransferTokens {
                    from: self.offer_vault_ata.key,
                    mint: self.payment_mint.key,
                    to: self.maker_payment_ata,
                    authority: self.offer_key,
                    amount: maker_amount,
                    decimals: self.payment_mint.decimals,
                    signer: PdaSigner::Offer {
                        asset: self.asset,
                        buyer: self.buyer,
                        bump: self.offer.bump,
                    },
                },
                Cpi::TransferTokens {
                    from: self.offer_vault_ata.key,
                    mint: self.payment_mint.key,
                    to: self.treasury_payment_ata,
                    authority: self.offer_key,
                    amount: fee,
                    decimals: self.payment_mint.decimals,
                    signer: PdaSigner::Offer {
                        asset: self.asset,
                        buyer: self.buyer,
                        bump: self.offer.bump,
                    },
                },
            ),
        )
    }

    /// The offer account, signing as itself, closes the vault in the buyer's favour.
    pub open spec fn close(self) -> Cpi {
        Cpi::CloseTokenAccount {
            account: self.offer_vault_ata.key,
            destination: self.buyer,
            authority: self.offer_key,
            signer: offer_signer(self.offer, self.asset, self.buyer),
        }
    }

    /// Plans the closing of the vault's token account.
    pub fn close_vault(&self) -> (r: Vec<Cpi>)
        ensures
            r@ == seq![self.close()],
    {
        one_request(
            Cpi::CloseTokenAccount {
                account: self.offer_vault_ata.key,
                destination: self.buyer,
                authority: self.offer_key,
                signer: PdaSigner::Offer { asset: self.asset, buyer: self.buyer, bump: self.offer.bump },
            },
        )
    }

    /// Plans the listing account's hand-over of the asset to the buyer, the maker paying.
    pub fn transfer_nft(&self) -> (r: Vec<Cpi>)
        ensures
            r@ == seq![
                release_asset(
                    self.asset,
                    self.collection,
                    self.listing,
                    self.listing_key,
                    self.maker,
                    self.buyer,
                ),
            ],
    {
        release_asset_request(
            &self.asset,
            &self.collection,
            &self.listing,
            &self.listing_key,
            &self.maker,
            &self.buyer,
        )
    }

    /// Plans the minting of as many reward tokens as the offer's amount into the buyer's
    /// account.
    pub fn mint_rewards(&self) -> (r: Vec<Cpi>)
        ensures
            r@ == seq![
                reward(
                    self.marketplace,
                    self.marketplace_key,
                    self.rewards_mint,
                    self.buyer_reward_ata,
                    self.offer.amount,
                ),
            ],
    {
        reward_request(
            &self.marketplace,
            &self.marketplace_key,
            &self.rewards_mint,
            &self.buyer_reward_ata,
            self.offer.amount,
        )
    }
}

} // verus!
