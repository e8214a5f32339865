use vstd::prelude::*;
use crate::address::Address;
use crate::constants::MAX_FEE_BASIS_POINTS;
use crate::name::name_error;
use crate::error::ConstraintError;

verus! {

/// A marketplace: its admin, fee in basis points, the bumps of its derived accounts and
/// its name.
#[derive(Debug, PartialEq, Eq)]
pub struct MarketPlace {
    pub admin: Address,
    pub fee: u16,
    pub bump: u8,
    pub treasury_bump: u8,
    pub rewards_bump: u8,
    pub name: String,
}

impl MarketPlace {
    /// What creation guarantees of a marketplace: a name that is not blank and fits
    /// `MAX_NAME_LENGTH` bytes, and a fee below `MAX_FEE_BASIS_POINTS`.
    pub open spec fn well_formed(self) -> bool {
        &&& name_error(self.name@) is None
        &&& self.fee < MAX_FEE_BASIS_POINTS
    }
}

/// An asset put up for sale by `maker` at `price`, payable in `payment_mint` (or in
/// lamports where it is `None`).
#[derive(Debug, Clone, Copy, PartialEq, Eq)]
pub struct Listing {
    pub maker: Address,
    pub asset: Address,
    pub price: u64,
    pub bump: u8,
    pub payment_mint: Option<Address>,
}

/// An offer of `amount` by `buyer` for `asset`. A lamport offer keeps the bump of its
/// vault and no mint; a token offer names its mint and has no vault bump.
#[derive(Debug, Clone, Copy, PartialEq, Eq)]
pub struct Offer {
    pub buyer: Address,
    pub asset: Address,
    pub amount: u64,
    pub bump: u8,
    pub vault_bump: Option<u8>,
    pub payment_mint: Option<Address>,
}

/// What the marketplace reads of a token mint.
#[derive(Debug, Clone, Copy, PartialEq, Eq)]
pub struct MintState {
    pub key: Address,
    pub decimals: u8,
    pub mint_authority: Option<Address>,
}

/// What the marketplace reads of a token account: its address, the program that owns it,
/// and its mint, owner and balance.
#[derive(Debug, Clone, Copy, PartialEq, Eq)]
pub struct TokenAccountState {
    pub key: Address,
    pub program: Address,
    pub mint: Address,
    pub owner: Address,
    pub amount: u64,
}

/// The address of the associated token account of `wallet` for `mint` under
/// `token_program`, as the associated-token-account program derives it.
pub uninterp spec fn associated_token_address(
    wallet: Address,
    mint: Address,
    token_program: Address,
) -> Address;

/// `get_associated_token_address_with_program_id` (from the associated-token-account
/// program's client, re-exported by `anchor_spl::associated_token`): the derived address
/// of `wallet`'s token account for `mint` under `token_program`. The contract names the
/// result and says nothing of how it is derived.
#[verifier::external_body]
fn derive_associated_token_address(wallet: &Address, mint: &Address, token_program: &Address) -> (r:
    Address)
    ensures
        r == associated_token_address(*wallet, *mint, *token_program),
{
    let derived = anchor_spl::associated_token::get_associated_token_address_with_program_id(
        &anchor_lang::prelude::Pubkey::new_from_array(wallet.bytes),
        &anchor_lang::prelude::Pubkey::new_from_array(mint.bytes),
        &anchor_lang::prelude::Pubkey::new_from_array(token_program.bytes),
    );
    Address { bytes: derived.to_bytes() }
}

/// Whether `account` is the associated token account of `wallet` for `mint` under
/// `token_program`: it is owned by the token program, then held by the wallet, then sits
/// at the derived address.
pub open spec fn token_account_links(
    account: TokenAccountState,
    wallet: Address,
    mint: Address,
    token_program: Address,
) -> Result<(), ConstraintError> {
    if account.program != token_program {
        Err(ConstraintError::ConstraintAssociatedTokenTokenProgram)
    } else if account.owner != wallet {
        Err(ConstraintError::ConstraintTokenOwner)
    } else if account.key != associated_token_address(wallet, mint, token_program) {
        Err(ConstraintError::ConstraintAssociated)
    } else {
        Ok(())
    }
}

/// Checks that `account` is the associated token account of `wallet` for `mint` under
/// `token_program`.
pub fn check_token_account(
    account: &TokenAccountState,
    wallet: &Address,
    mint: &Address,
    token_program: &Address,
) -> (r: Result<(), ConstraintError>)
    ensures
        r == token_account_links(*account, *wallet, *mint, *token_program),
{
    if !account.program.same_as(token_program) {
        return Err(ConstraintError::ConstraintAssociatedTokenTokenProgram);
    }
    if !account.owner.same_as(wallet) {
        return Err(ConstraintError::ConstraintTokenOwner);
    }
    let expected = derive_associated_token_address(wallet, mint, token_program);
    if !account.key.same_as(&expected) {
        return Err(ConstraintError::ConstraintAssociated);
    }
    Ok(())
}

/// The asset program that holds the listed assets.
#[derive(Debug, Clone, Copy, PartialEq, Eq)]
pub struct MplCore;

/// The address of the asset program.
pub open spec fn mpl_core_id() -> Address {
    Address {
        bytes: [
            175, 84, 171, 16, 189, 151, 165, 66, 160, 158, 247, 179, 152, 137, 221, 12, 211, 148,
            164, 204, 233, 223, 166, 205, 201, 126, 190, 45, 35, 91, 167, 72,
        ],
    }
}

impl MplCore {
    /// The address of the asset program (`CoREENxT6tW1HoK8ypY1SxRMZTcVPm7R94rH4PZNhX7d`).
    pub fn id() -> (r: Address)
        ensures
            r == mpl_core_id(),
    {
        Address {
            bytes: [
                175, 84, 171, 16, 189, 151, 165, 66, 160, 158, 247, 179, 152, 137, 221, 12, 211,
                148, 164, 204, 233, 223, 166, 205, 201, 126, 190, 45, 35, 91, 167, 72,
            ],
        }
    }
}

} // verus!
