use vstd::prelude::*;
use crate::address::Address;
use crate::constants::{MAX_FEE_BASIS_POINTS, MAX_NAME_LENGTH};
use crate::cpi::{one_request, plan_view, Cpi, PdaSigner};
use crate::error::{ConstraintError, MarketplaceError};
use crate::name::{name_error, name_is_blank};
use crate::state::{check_token_account, token_account_links, MarketPlace, MintState, TokenAccountState};

verus! {

/// The bumps of the accounts that creating a marketplace derives.
#[derive(Debug, Clone, Copy, PartialEq, Eq)]
pub struct InitBumps {
    pub marketplace: u8,
    pub treasury: u8,
    pub rewards_mint: u8,
}

/// Creating a marketplace: the signing admin and the marketplace record being set up.
#[derive(Debug, PartialEq, Eq)]
pub struct Init {
    pub admin: Address,
    pub marketplace: MarketPlace,
}

/// Why creating a marketplace named `name` with a fee of `fee` basis points is refused,
/// if it is: a blank name, then a name over `MAX_NAME_LENGTH` bytes, then a fee that is
/// not below `MAX_FEE_BASIS_POINTS`.
pub open spec fn init_error(name: Seq<char>, fee: u16) -> Option<MarketplaceError> {
    match name_error(name) {
        Some(e) => Some(e),
        None => if fee >= MAX_FEE_BASIS_POINTS {
            Some(MarketplaceError::InvalidFee)
        } else {
            None
        },
    }
}

impl Init {
    /// Checks the name and fee, and records the marketplace.
    pub fn init(&mut self, name: String, fee: u16, bumps: &InitBumps) -> (r: Result<
        (),
        MarketplaceError,
    >)
        ensures
            match init_error(name@, fee) {
                Some(e) => r == Err::<(), MarketplaceError>(e) && *final(self) == *old(self),
                None => {
                    &&& r == Ok::<(), MarketplaceError>(())
                    &&& final(self).admin == old(self).admin
                    &&& final(self).marketplace == (MarketPlace {
                        admin: old(self).admin,
                        fee,
                        bump: bumps.marketplace,
                        treasury_bump: bumps.treasury,
                        rewards_bump: bumps.rewards_mint,
                        name,
                    })
                },
            },
    {
        if name_is_blank(name.as_str()) {
            return Err(MarketplaceError::EmptyName);
        }
        if name.as_str().as_bytes().len() > MAX_NAME_LENGTH as usize {
            return Err(MarketplaceError::NameTooLong);
        }
        if fee >= MAX_FEE_BASIS_POINTS {
            return Err(MarketplaceError::InvalidFee);
        }
        self.marketplace = MarketPlace {
            admin: self.admin,
            bump: bumps.marketplace,
            fee,
            name,
            rewards_bump: bumps.rewards_mint,
            treasury_bump: bumps.treasury,
        };
        Ok(())
    }
}

/// A fee claim must be of a positive amount.
pub open spec fn claim_amount_ok(amount: u64) -> Result<(), MarketplaceError> {
    if amount == 0 {
        Err(MarketplaceError::InvalidFee)
    } else {
        Ok(())
    }
}

/// Refuses a fee claim of nothing, the first check of either claim.
pub fn check_claim_amount(amount: u64) -> (r: Result<(), MarketplaceError>)
    ensures
        r == claim_amount_ok(amount),
{
    if amount == 0 {
        return Err(MarketplaceError::InvalidFee);
    }
    Ok(())
}

/// What is left of `balance` after taking `amount`, or zero where `amount` is larger.
pub open spec fn saturating_diff(balance: u64, amount: u64) -> int {
    if balance >= amount {
        balance - amount
    } else {
        0
    }
}

/// The admin's claim of lamport fees from the treasury.
#[derive(Debug, PartialEq, Eq)]
pub struct ClaimSolFee {
    /// The signer.
    pub admin: Address,
    pub marketplace: MarketPlace,
    pub marketplace_key: Address,
    pub treasury: Address,
    /// The treasury's lamports.
    pub treasury_lamports: u64,
    /// The lamports the treasury must keep to stay rent-exempt.
    pub treasury_rent_minimum: u64,
    pub recipient: Address,
}

impl ClaimSolFee {
    /// Whether the signer is the marketplace's admin.
    pub open spec fn spec_check_accounts(self) -> Result<(), ConstraintError> {
        if self.marketplace.admin == self.admin {
            Ok(())
        } else {
            Err(ConstraintError::ConstraintHasOne)
        }
    }

    /// Checks that the signer is the marketplace's admin.
    pub fn check_accounts(&self) -> (r: Result<(), ConstraintError>)
        ensures
            r == self.spec_check_accounts(),
    {
        if !self.marketplace.admin.same_as(&self.admin) {
            return Err(ConstraintError::ConstraintHasOne);
        }
        Ok(())
    }

    /// The treasury, signing as itself, pays `amount` lamports to the recipient.
    pub open spec fn fee_payout(self, amount: u64) -> Cpi {
        Cpi::TransferLamports {
            from: self.treasury,
            to: self.recipient,
            lamports: amount,
            signer: PdaSigner::Treasury {
                marketplace: self.marketplace_key,
                bump: self.marketplace.treasury_bump,
            },
        }
    }

    /// A claim of `amount` is refused when it is zero, or when the treasury would keep
    /// less than its rent minimum; else the amount is paid out.
    pub open spec fn spec_claim_fees(self, amount: u64) -> Result<Seq<Cpi>, MarketplaceError> {
        if amount == 0 {
            Err(MarketplaceError::InvalidFee)
        } else if saturating_diff(self.treasury_lamports, amount) < self.treasury_rent_minimum {
            Err(MarketplaceError::InsufficientTreasuryFunds)
        } else {
            Ok(seq![self.fee_payout(amount)])
        }
    }

    /// Decides a claim of `amount` lamports and plans the payout.
    pub fn claim_fees(&self, amount: u64) -> (r: Result<Vec<Cpi>, MarketplaceError>)
        ensures
            plan_view(r) == self.spec_claim_fees(amount),
    {
        check_claim_amount(amount)?;
        let treasury_balance = self.treasury_lamports;
        let min_rent = self.treasury_rent_minimum;
        if treasury_balance.saturating_sub(amount) < min_rent {
            return Err(MarketplaceError::InsufficientTreasuryFunds);
        }
        Ok(
            one_request(
                Cpi::TransferLamports {
                    from: self.treasury,
                    to: self.recipient,
                    lamports: amount,
                    signer: PdaSigner::Treasury {
                        marketplace: self.marketplace_key,
                        bump: self.marketplace.treasury_bump,
                    },
                },
            ),
        )
    }
}

/// The admin's claim of token fees from the treasury's token account.
#[derive(Debug, PartialEq, Eq)]
pub struct ClaimTokenFee {
    /// The signer.
    pub admin: Address,
    pub marketplace: MarketPlace,
    pub marketplace_key: Address,
    pub treasury: Address,
    pub treasury_payment_ata: TokenAccountState,
    pub payment_mint: MintState,
    /// The token program that the token accounts belong to.
    pub token_program: Address,
    pub recipient: Address,
    pub recipient_payment_ata: Address,
}

impl ClaimTokenFee {
    /// The signer must be the marketplace's admin, and the token account that pays must
    /// be the treasury's account for the payment mint.
    pub open spec fn spec_check_accounts(self) -> Result<(), ConstraintError> {
        if self.marketplace.admin != self.admin {
            Err(ConstraintError::ConstraintHasOne)
        } else {
            token_account_links(self.treasury_payment_ata, self.treasury, self.payment_mint.key, self.token_program)
        }
    }

    /// Checks the signer and the paying token account.
    pub fn check_accounts(&self) -> (r: Result<(), ConstraintError>)
        ensures
            r == self.spec_check_accounts(),
    {
        if !self.marketplace.admin.same_as(&self.admin) {
            return Err(ConstraintError::ConstraintHasOne);
        }
        check_token_account(&self.treasury_payment_ata, &self.treasury, &self.payment_mint.key, &self.token_program)
    }

    /// The treasury, signing as itself, pays `amount` tokens to the recipient's account.
    pub open spec fn fee_payout(self, amount: u64) -> Cpi {
        Cpi::TransferTokens {
            from: self.treasury_payment_ata.key,
            mint: self.payment_mint.key,
            to: self.recipient_payment_ata,
            authority: self.treasury,
            amount,
            decimals: self.payment_mint.decimals,
            signer: PdaSigner::Treasury {
                marketplace: self.marketplace_key,
                bump: self.marketplace.treasury_bump,
            },
        }
    }

    /// A claim of `amount` is refused when it is zero or above the treasury's token
    /// balance; else the amount is paid out.
    pub open spec fn spec_claim_fees(self, amount: u64) -> Result<Seq<Cpi>, MarketplaceError> {
        if amount == 0 {
            Err(MarketplaceError::InvalidFee)
        } else if self.treasury_payment_ata.amount < amount {
            Err(MarketplaceError::InsufficientTreasuryFunds)
        } else {
            Ok(seq![self.fee_payout(amount)])
        }
    }

    /// Decides a claim of `amount` tokens and plans the payout.
    pub fn claim_fees(&self, amount: u64) -> (r: Result<Vec<Cpi>, MarketplaceError>)
        ensures
            plan_view(r) == self.spec_claim_fees(amount),
    {
        check_claim_amount(amount)?;
        let treasury_balance = self.treasury_payment_ata.amount;
        if treasury_balance < amount {
            return Err(MarketplaceError::InsufficientTreasuryFunds);
        }
        Ok(
            one_request(
                Cpi::TransferTokens {
                    from: self.treasury_payment_ata.key,
                    mint: self.payment_mint.key,
                    to: self.recipient_payment_ata,
                    authority: self.treasury,
                    amount,
                    decimals: self.payment_mint.decimals,
                    signer: PdaSigner::Treasury {
                        marketplace: self.marketplace_key,
                        bump: self.marketplace.treasury_bump,
                    },
                },
            ),
        )
    }
}

} // verus!
