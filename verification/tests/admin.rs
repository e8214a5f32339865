use anchor_lang::prelude::Pubkey;
use turbine_q2_26_nft_marketplace::address::Address;
use turbine_q2_26_nft_marketplace::admin::{ClaimSolFee, ClaimTokenFee, Init, InitBumps};
use turbine_q2_26_nft_marketplace::cpi::{Cpi, PdaSigner};
use turbine_q2_26_nft_marketplace::error::{ConstraintError, MarketplaceError};
use turbine_q2_26_nft_marketplace::state::{MarketPlace, MintState, TokenAccountState};

/// Rent-exempt minimum of an account with no data.
const EMPTY_ACCOUNT_RENT: u64 = 890_880;

fn key(n: u8) -> Address {
    Address::new([n; 32])
}

/// The token program that the tests' token accounts belong to.
fn token_program() -> Address {
    key(90)
}

/// The associated token account of `wallet` for `mint`.
fn ata(wallet: Address, mint: Address) -> Address {
    let derived = anchor_spl::associated_token::get_associated_token_address_with_program_id(
        &Pubkey::new_from_array(wallet.bytes),
        &Pubkey::new_from_array(mint.bytes),
        &Pubkey::new_from_array(token_program().bytes),
    );
    Address::new(derived.to_bytes())
}

/// Creates a marketplace of admin `key(1)` and returns its record.
fn fixture_marketplace(name: &str, fee: u16) -> MarketPlace {
    let mut ctx = Init {
        admin: key(1),
        marketplace: MarketPlace {
            admin: key(0),
            fee: 0,
            bump: 0,
            treasury_bump: 0,
            rewards_bump: 0,
            name: String::new(),
        },
    };
    ctx.init(name.to_string(), fee, &InitBumps { marketplace: 250, treasury: 251, rewards_mint: 252 })
        .expect("marketplace creation should succeed");
    ctx.marketplace
}

fn claim_ctx(signer: Address, marketplace: MarketPlace, treasury_lamports: u64, recipient: Address) -> ClaimSolFee {
    ClaimSolFee {
        admin: signer,
        marketplace,
        marketplace_key: key(2),
        treasury: key(3),
        treasury_lamports,
        treasury_rent_minimum: EMPTY_ACCOUNT_RENT,
        recipient,
    }
}

fn lamports_to(plan: &[Cpi], who: Address) -> u64 {
    plan.iter()
        .map(|c| match c {
            Cpi::TransferLamports { to, lamports, .. } if *to == who => *lamports,
            _ => 0,
        })
        .sum()
}

#[test]
fn test_claim_sol_fee_success() {
    let marketplace = fixture_marketplace("SolFeeMarket", 500);
    let fee_amount: u64 = 5_000_000;
    let rent_buffer: u64 = 1_000_000;
    let recipient = key(9);
    let ctx = claim_ctx(key(1), marketplace, fee_amount + rent_buffer, recipient);
    assert_eq!(ctx.check_accounts(), Ok(()));
    let plan = ctx
        .claim_fees(fee_amount)
        .expect("claim_sol_fee should succeed when treasury has enough funds");
    assert_eq!(lamports_to(&plan, recipient), fee_amount, "recipient should receive exactly the claimed amount");
    assert_eq!(
        plan,
        vec![Cpi::TransferLamports {
            from: key(3),
            to: recipient,
            lamports: fee_amount,
            signer: PdaSigner::Treasury { marketplace: key(2), bump: 251 },
        }]
    );
}

#[test]
fn test_claim_sol_fee_zero_amount_fails() {
    let marketplace = fixture_marketplace("ZeroClaimMarket", 500);
    let ctx = claim_ctx(key(1), marketplace, 2_000_000, key(9));
    assert_eq!(ctx.claim_fees(0), Err(MarketplaceError::InvalidFee), "claiming 0 lamports should be rejected (InvalidFee)");
}

#[test]
fn test_claim_sol_fee_insufficient_treasury_fails() {
    let marketplace = fixture_marketplace("PoorTreasuryMarket", 500);
    let ctx = claim_ctx(key(1), marketplace, 0, key(9));
    assert_eq!(
        ctx.claim_fees(5_000_000),
        Err(MarketplaceError::InsufficientTreasuryFunds),
        "claiming more than the spendable treasury balance should fail (InsufficientTreasuryFunds)"
    );
}

#[test]
fn test_claim_sol_fee_wrong_admin_fails() {
    let marketplace = fixture_marketplace("WrongAdminMarket", 500);
    let impostor = key(66);
    let ctx = claim_ctx(impostor, marketplace, 10_000_000, key(9));
    assert_eq!(
        ctx.check_accounts(),
        Err(ConstraintError::ConstraintHasOne),
        "a non-admin signer should be rejected by has_one = admin"
    );
}

#[test]
fn test_claim_sol_fee_partial_then_full() {
    let total_fees: u64 = 20_000_000;
    let rent_buffer: u64 = 2_000_000;
    let recipient = key(9);
    let half = total_fees / 2;

    let first = claim_ctx(key(1), fixture_marketplace("PartialClaimMarket", 300), total_fees + rent_buffer, recipient);
    let plan1 = first.claim_fees(half).expect("first partial claim should succeed");

    let second = claim_ctx(key(1), fixture_marketplace("PartialClaimMarket", 300), total_fees + rent_buffer - half, recipient);
    let plan2 = second.claim_fees(half).expect("second partial claim should succeed");

    let final_balance = lamports_to(&plan1, recipient) + lamports_to(&plan2, recipient);
    assert_eq!(final_balance, total_fees, "recipient should have received the full fee amount across two claims");
}

#[test]
fn claim_sol_fee_keeps_rent_minimum_exactly() {
    let ctx = claim_ctx(key(1), fixture_marketplace("EdgeMarket", 100), 1_000_000 + EMPTY_ACCOUNT_RENT, key(9));
    assert!(ctx.claim_fees(1_000_000).is_ok());
    assert_eq!(ctx.claim_fees(1_000_001), Err(MarketplaceError::InsufficientTreasuryFunds));
}

#[test]
fn claim_sol_fee_over_balance_passes_when_no_rent_is_due() {
    // the balance check saturates at zero, so with no rent minimum it lets any amount through
    let mut ctx = claim_ctx(key(1), fixture_marketplace("NoRentMarket", 100), 10, key(9));
    ctx.treasury_rent_minimum = 0;
    assert!(ctx.claim_fees(1_000).is_ok());
}

fn token_claim_ctx(signer: Address, ata_owner: Address, balance: u64) -> ClaimTokenFee {
    ClaimTokenFee {
        admin: signer,
        marketplace: fixture_marketplace("TokenFeeMarket", 250),
        marketplace_key: key(2),
        treasury: key(3),
        treasury_payment_ata: TokenAccountState {
            key: ata(key(3), key(5)),
            program: token_program(),
            mint: key(5),
            owner: ata_owner,
            amount: balance,
        },
        payment_mint: MintState { key: key(5), decimals: 9, mint_authority: None },
        token_program: token_program(),
        recipient: key(9),
        recipient_payment_ata: key(10),
    }
}

#[test]
fn claim_token_fee_success() {
    let ctx = token_claim_ctx(key(1), key(3), 700);
    assert_eq!(ctx.check_accounts(), Ok(()));
    assert_eq!(
        ctx.claim_fees(700),
        Ok(vec![Cpi::TransferTokens {
            from: ata(key(3), key(5)),
            mint: key(5),
            to: key(10),
            authority: key(3),
            amount: 700,
            decimals: 9,
            signer: PdaSigner::Treasury { marketplace: key(2), bump: 251 },
        }])
    );
}

#[test]
fn claim_token_fee_refusals() {
    let ctx = token_claim_ctx(key(1), key(3), 700);
    assert_eq!(ctx.claim_fees(0), Err(MarketplaceError::InvalidFee));
    assert_eq!(ctx.claim_fees(701), Err(MarketplaceError::InsufficientTreasuryFunds));
    assert_eq!(token_claim_ctx(key(8), key(3), 700).check_accounts(), Err(ConstraintError::ConstraintHasOne));
    assert_eq!(token_claim_ctx(key(1), key(8), 700).check_accounts(), Err(ConstraintError::ConstraintTokenOwner));
}

#[test]
fn treasury_signer_seeds() {
    let seeds = PdaSigner::Treasury { marketplace: key(2), bump: 251 }.seeds();
    assert_eq!(seeds, vec![b"treasury".to_vec(), vec![2u8; 32], vec![251]]);
    let seeds = PdaSigner::Marketplace { name: "SolFeeMarket".to_string(), bump: 250 }.seeds();
    assert_eq!(seeds, vec![b"marketplace".to_vec(), b"SolFeeMarket".to_vec(), vec![250]]);
    assert!(PdaSigner::Unsigned.seeds().is_empty());
}

#[test]
fn claim_token_fee_wrong_mint_account_fails() {
    let mut ctx = token_claim_ctx(key(1), key(3), 700);
    // an account of the treasury's, but not its associated account for the mint
    ctx.treasury_payment_ata.key = ata(key(3), key(6));
    assert_eq!(ctx.check_accounts(), Err(ConstraintError::ConstraintAssociated));
    // the owner is checked before the mint
    ctx.treasury_payment_ata.owner = key(8);
    assert_eq!(ctx.check_accounts(), Err(ConstraintError::ConstraintTokenOwner));
    // the owning program is checked before the holder
    ctx.treasury_payment_ata.program = key(91);
    assert_eq!(ctx.check_accounts(), Err(ConstraintError::ConstraintAssociatedTokenTokenProgram));
}
