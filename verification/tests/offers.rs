use anchor_lang::prelude::Pubkey;
use turbine_q2_26_nft_marketplace::address::Address;
use turbine_q2_26_nft_marketplace::admin::{Init, InitBumps};
use turbine_q2_26_nft_marketplace::cpi::{Cpi, PdaSigner};
use turbine_q2_26_nft_marketplace::error::{ConstraintError, MarketplaceError};
use turbine_q2_26_nft_marketplace::listing::{List, ListBumps};
use turbine_q2_26_nft_marketplace::offer::{
    AcceptSolOffer, AcceptTokenOffer, CancelSolOffer, CancelTokenOffer, MakeSolOffer, MakeSolOfferBumps,
    MakeTokenOffer, MakeTokenOfferBumps,
};
use turbine_q2_26_nft_marketplace::state::{Listing, MarketPlace, MintState, Offer, TokenAccountState};

fn key(n: u8) -> Address {
    Address::new([n; 32])
}

/// The token program that the tests' token accounts belong to.
fn token_program() -> Address {
    key(90)
}

/// The associated token account of `wallet` for `mint`.
fn ata(wallet: Address, mint: Address) -> Address {
    let derived = anchor_spl::associated_token::get_associated_token_address_with_program_id(
        &Pubkey::new_from_array(wallet.bytes),
        &Pubkey::new_from_array(mint.bytes),
        &Pubkey::new_from_array(token_program().bytes),
    );
    Address::new(derived.to_bytes())
}

fn empty_offer() -> Offer {
    Offer { buyer: key(0), asset: key(0), amount: 0, bump: 0, vault_bump: None, payment_mint: None }
}

fn vault_of(asset: Address) -> Address {
    Address::new([asset.bytes[0].wrapping_add(100); 32])
}

fn make_sol_offer(buyer: Address, asset: Address, amount: u64) -> (MakeSolOffer, Result<(), MarketplaceError>, Vec<Cpi>) {
    let mut ctx = MakeSolOffer { buyer, asset, offer: empty_offer(), offer_vault: vault_of(asset) };
    let r = ctx.init_offer(amount, &MakeSolOfferBumps { offer: 240, offer_vault: 239 });
    let deposit = if r.is_ok() { ctx.deposit_sol(amount) } else { Vec::new() };
    (ctx, r, deposit)
}

fn lamports_to(plan: &[Cpi], who: Address) -> u64 {
    plan.iter()
        .map(|c| match c {
            Cpi::TransferLamports { to, lamports, .. } if *to == who => *lamports,
            _ => 0,
        })
        .sum()
}

fn tokens_to(plan: &[Cpi], who: Address) -> u64 {
    plan.iter()
        .map(|c| match c {
            Cpi::TransferTokens { to, amount, .. } if *to == who => *amount,
            Cpi::MintTokens { to, amount, .. } if *to == who => *amount,
            _ => 0,
        })
        .sum()
}

fn fixture_marketplace(name: &str, fee: u16) -> MarketPlace {
    let mut ctx = Init {
        admin: key(30),
        marketplace: MarketPlace {
            admin: key(0),
            fee: 0,
            bump: 0,
            treasury_bump: 0,
            rewards_bump: 0,
            name: String::new(),
        },
    };
    ctx.init(name.to_string(), fee, &InitBumps { marketplace: 250, treasury: 251, rewards_mint: 252 })
        .expect("marketplace creation should succeed");
    ctx.marketplace
}

fn listed(maker: Address, asset: Address, price: u64, mint: Option<Address>) -> Listing {
    let mut ctx = List {
        maker,
        asset,
        collection: None,
        listing: Listing { maker: key(0), asset: key(0), price: 0, bump: 0, payment_mint: None },
        listing_key: key(41),
        payment_mint: mint,
    };
    ctx.create_listing(price, &ListBumps { listing: 248 }).expect("listing should succeed");
    ctx.listing
}

#[test]
fn test_make_sol_offer_success() {
    let buyer = key(1);
    let asset = key(20);
    let offer_amount: u64 = 1_000_000_000;
    let (ctx, r, deposit) = make_sol_offer(buyer, asset, offer_amount);
    assert!(r.is_ok(), "make_sol_offer should succeed");
    assert_eq!(
        ctx.offer,
        Offer { buyer, asset, amount: offer_amount, bump: 240, vault_bump: Some(239), payment_mint: None },
        "offer record should exist after make_sol_offer"
    );
    let vault_gain = lamports_to(&deposit, vault_of(asset));
    assert!(vault_gain > 0, "vault balance should increase by the offer amount");
    assert!(vault_gain >= offer_amount, "vault should hold at least the offered amount");
    assert_eq!(
        deposit,
        vec![Cpi::TransferLamports { from: buyer, to: vault_of(asset), lamports: offer_amount, signer: PdaSigner::Unsigned }]
    );
}

#[test]
fn test_make_sol_offer_zero_amount_fails() {
    let (ctx, r, _) = make_sol_offer(key(1), key(20), 0);
    assert_eq!(r, Err(MarketplaceError::InvalidPrice), "offering 0 lamports should be rejected (InvalidPrice)");
    assert_eq!(ctx.offer, empty_offer());
}

#[test]
fn test_cancel_sol_offer_success() {
    let buyer = key(1);
    let asset = key(20);
    let offer_amount: u64 = 500_000_000;
    let (made, r, deposit) = make_sol_offer(buyer, asset, offer_amount);
    r.expect("make_sol_offer should succeed");
    let cancel = CancelSolOffer {
        buyer,
        asset,
        offer: made.offer,
        offer_vault: vault_of(asset),
        offer_vault_lamports: lamports_to(&deposit, vault_of(asset)),
    };
    assert_eq!(cancel.check_accounts(), Ok(()), "cancel_sol_offer should succeed");
    let refund = cancel.refund_sol();
    assert!(lamports_to(&refund, buyer) > 0, "buyer's balance should increase after cancel");
    assert_eq!(
        refund,
        vec![Cpi::TransferLamports {
            from: vault_of(asset),
            to: buyer,
            lamports: offer_amount,
            signer: PdaSigner::OfferVault { asset, buyer, bump: 239 },
        }]
    );
}

#[test]
fn test_cancel_sol_offer_wrong_buyer_fails() {
    let buyer = key(1);
    let asset = key(20);
    let (made, r, _) = make_sol_offer(buyer, asset, 1_000_000_000);
    r.expect("make_sol_offer should succeed");
    let thief = key(66);
    let bad = CancelSolOffer {
        buyer: thief,
        asset,
        offer: made.offer,
        offer_vault: vault_of(asset),
        offer_vault_lamports: 1_000_000_000,
    };
    assert_eq!(
        bad.check_accounts(),
        Err(ConstraintError::ConstraintHasOne),
        "a non-buyer should not be able to cancel the offer (has_one = buyer)"
    );
}

#[test]
fn test_make_and_cancel_multiple_offers_different_assets() {
    let buyer = key(1);
    let assets = [key(20), key(21), key(22)];
    let amount: u64 = 1_000_000_000;
    let mut made = Vec::new();
    for &asset in &assets {
        let (ctx, r, deposit) = make_sol_offer(buyer, asset, amount);
        r.expect("make_sol_offer should succeed for each distinct asset");
        made.push((ctx, lamports_to(&deposit, vault_of(asset))));
    }
    for (ctx, held) in made {
        let cancel = CancelSolOffer {
            buyer,
            asset: ctx.asset,
            offer: ctx.offer,
            offer_vault: ctx.offer_vault,
            offer_vault_lamports: held,
        };
        assert_eq!(cancel.check_accounts(), Ok(()), "cancel_sol_offer should succeed for each offer");
        assert_eq!(lamports_to(&cancel.refund_sol(), buyer), amount);
    }
}

#[test]
fn test_accept_sol_offer_requires_mpl_core() {
    let maker = key(2);
    let buyer = key(1);
    let asset = key(20);
    let marketplace = fixture_marketplace("AcceptSolOfferMarket", 500);
    let listing = listed(maker, asset, 2_000_000_000, None);
    let (made, r, _) = make_sol_offer(buyer, asset, 1_000_000_000);
    r.unwrap();
    let accept = AcceptSolOffer {
        maker,
        buyer,
        marketplace,
        asset,
        collection: None,
        listing,
        listing_key: key(41),
        offer: made.offer,
        offer_vault: vault_of(asset),
        treasury: key(50),
    };
    assert_eq!(accept.check_accounts(), Ok(()));
    let pay = accept.send_sol().expect("acceptance should go through");
    assert_eq!(lamports_to(&pay, maker), 950_000_000);
    assert_eq!(lamports_to(&pay, key(50)), 50_000_000);
    assert_eq!(
        pay[1],
        Cpi::TransferLamports {
            from: vault_of(asset),
            to: key(50),
            lamports: 50_000_000,
            signer: PdaSigner::OfferVault { asset, buyer, bump: 239 },
        }
    );
    assert_eq!(
        accept.transfer_nft(),
        vec![Cpi::TransferAsset {
            asset,
            collection: None,
            payer: maker,
            authority: key(41),
            new_owner: buyer,
            signer: PdaSigner::Listing { asset, bump: 248 },
        }]
    );
}

#[test]
fn accept_sol_offer_refusals() {
    let maker = key(2);
    let buyer = key(1);
    let asset = key(20);
    let (made, _, _) = make_sol_offer(buyer, asset, 1_000);
    let base = || AcceptSolOffer {
        maker,
        buyer,
        marketplace: fixture_marketplace("RefuseOfferMarket", 500),
        asset,
        collection: None,
        listing: listed(maker, asset, 5, None),
        listing_key: key(41),
        offer: made.offer,
        offer_vault: vault_of(asset),
        treasury: key(50),
    };
    let mut wrong_maker = base();
    wrong_maker.maker = key(77);
    assert_eq!(wrong_maker.check_accounts(), Err(ConstraintError::ConstraintHasOne));
    let mut wrong_buyer = base();
    wrong_buyer.buyer = key(77);
    assert_eq!(wrong_buyer.check_accounts(), Err(ConstraintError::ConstraintHasOne));
    let mut zero = base();
    zero.offer.amount = 0;
    assert_eq!(zero.send_sol(), Err(MarketplaceError::InvalidPrice));
    // a record whose fee is above the cap can take more than the amount
    let mut over = base();
    over.marketplace.fee = 20_000;
    assert_eq!(over.send_sol(), Err(MarketplaceError::MathOverflow));
    // at exactly the cap the whole amount goes to the treasury
    let mut full = base();
    full.marketplace.fee = 10_000;
    let plan = full.send_sol().unwrap();
    assert_eq!(lamports_to(&plan, maker), 0);
    assert_eq!(lamports_to(&plan, key(50)), 1_000);
}

fn make_token_offer_ctx(buyer: Address, asset: Address, mint: Address, balance: u64) -> MakeTokenOffer {
    MakeTokenOffer {
        buyer,
        asset,
        offer: empty_offer(),
        offer_key: key(60),
        payment_mint: MintState { key: mint, decimals: 6, mint_authority: Some(buyer) },
        token_program: token_program(),
        buyer_payment_ata: TokenAccountState {
            key: ata(buyer, mint),
            program: token_program(),
            mint,
            owner: buyer,
            amount: balance,
        },
        offer_vault_ata: ata(key(60), mint),
    }
}

#[test]
fn test_make_token_offer_scaffold() {
    let buyer = key(1);
    let asset = key(20);
    let mint = key(70);
    let mut ctx = make_token_offer_ctx(buyer, asset, mint, 1_000_000);
    assert_eq!(ctx.check_accounts(), Ok(()));
    ctx.init_offer(1_000_000, &MakeTokenOfferBumps { offer: 238 }).expect("token offer should be recorded");
    assert_eq!(
        ctx.offer,
        Offer { buyer, asset, amount: 1_000_000, bump: 238, vault_bump: None, payment_mint: Some(mint) }
    );
    assert_eq!(
        ctx.deposit_tokens(1_000_000),
        vec![Cpi::TransferTokens {
            from: ata(key(1), key(70)),
            mint,
            to: ata(key(60), key(70)),
            authority: buyer,
            amount: 1_000_000,
            decimals: 6,
            signer: PdaSigner::Unsigned,
        }]
    );
}

#[test]
fn make_token_offer_refusals() {
    let mut ctx = make_token_offer_ctx(key(1), key(20), key(70), 5);
    assert_eq!(ctx.init_offer(0, &MakeTokenOfferBumps { offer: 238 }), Err(MarketplaceError::InvalidPrice));
    assert_eq!(ctx.offer, empty_offer());
    ctx.buyer_payment_ata.owner = key(9);
    assert_eq!(ctx.check_accounts(), Err(ConstraintError::ConstraintTokenOwner));
}

fn token_offer(buyer: Address, asset: Address, mint: Address, amount: u64) -> Offer {
    let mut ctx = make_token_offer_ctx(buyer, asset, mint, amount);
    ctx.init_offer(amount, &MakeTokenOfferBumps { offer: 238 }).unwrap();
    ctx.offer
}

#[test]
fn cancel_token_offer_refunds_vault() {
    let buyer = key(1);
    let asset = key(20);
    let mint = key(70);
    let ctx = CancelTokenOffer {
        buyer,
        asset,
        offer: token_offer(buyer, asset, mint, 400),
        offer_key: key(60),
        payment_mint: MintState { key: mint, decimals: 6, mint_authority: None },
        token_program: token_program(),
        buyer_payment_ata: TokenAccountState {
            key: ata(buyer, mint),
            program: token_program(),
            mint,
            owner: buyer,
            amount: 0,
        },
        offer_vault_ata: TokenAccountState {
            key: ata(key(60), mint),
            program: token_program(),
            mint,
            owner: key(60),
            amount: 400,
        },
    };
    assert_eq!(ctx.check_accounts(), Ok(()));
    assert_eq!(
        ctx.refund_tokens(),
        vec![Cpi::TransferTokens {
            from: ata(key(60), key(70)),
            mint,
            to: ata(key(1), key(70)),
            authority: key(60),
            amount: 400,
            decimals: 6,
            signer: PdaSigner::Offer { asset, buyer, bump: 238 },
        }]
    );
    assert_eq!(
        ctx.close_vault(),
        vec![Cpi::CloseTokenAccount {
            account: ata(key(60), key(70)),
            destination: buyer,
            authority: key(60),
            signer: PdaSigner::Offer { asset, buyer, bump: 238 },
        }]
    );
    let mut thief = ctx;
    thief.buyer = key(66);
    assert_eq!(thief.check_accounts(), Err(ConstraintError::ConstraintHasOne));
    let mut wrong_vault = ctx;
    wrong_vault.offer_vault_ata.owner = key(66);
    assert_eq!(wrong_vault.check_accounts(), Err(ConstraintError::ConstraintTokenOwner));
    assert_eq!(
        PdaSigner::Offer { asset, buyer, bump: 238 }.seeds(),
        vec![b"offer".to_vec(), vec![20u8; 32], vec![1u8; 32], vec![238]]
    );
    assert_eq!(
        PdaSigner::OfferVault { asset, buyer, bump: 239 }.seeds(),
        vec![b"offer_vault".to_vec(), vec![20u8; 32], vec![1u8; 32], vec![239]]
    );
}

fn accept_token_ctx(mint: Address, paying_mint: Address) -> AcceptTokenOffer {
    let buyer = key(1);
    let maker = key(2);
    let asset = key(20);
    AcceptTokenOffer {
        maker,
        buyer,
        marketplace: fixture_marketplace("AcceptTokenMarket", 250),
        marketplace_key: key(3),
        treasury: key(4),
        asset,
        collection: Some(key(21)),
        listing: listed(maker, asset, 900_000, Some(mint)),
        listing_key: key(41),
        offer: token_offer(buyer, asset, mint, 800_000),
        offer_key: key(60),
        payment_mint: MintState { key: paying_mint, decimals: 6, mint_authority: None },
        token_program: token_program(),
        offer_vault_ata: TokenAccountState {
            key: ata(key(60), mint),
            program: token_program(),
            mint,
            owner: key(60),
            amount: 800_000,
        },
        maker_payment_ata: key(63),
        treasury_payment_ata: key(64),
        rewards_mint: MintState { key: key(9), decimals: 6, mint_authority: Some(key(3)) },
        buyer_reward_ata: key(65),
    }
}

#[test]
fn accept_token_offer_pays_and_rewards() {
    let ctx = accept_token_ctx(key(70), key(70));
    assert_eq!(ctx.check_accounts(), Ok(()));
    let pay = ctx.send_tokens().unwrap();
    assert_eq!(tokens_to(&pay, key(63)), 780_000);
    assert_eq!(tokens_to(&pay, key(64)), 20_000);
    assert_eq!(
        ctx.mint_rewards(),
        vec![Cpi::MintTokens {
            mint: key(9),
            to: key(65),
            authority: key(3),
            amount: 800_000,
            decimals: 6,
            signer: PdaSigner::Marketplace { name: "AcceptTokenMarket".to_string(), bump: 250 },
        }]
    );
    assert_eq!(
        ctx.close_vault(),
        vec![Cpi::CloseTokenAccount {
            account: ata(key(60), key(70)),
            destination: key(1),
            authority: key(60),
            signer: PdaSigner::Offer { asset: key(20), buyer: key(1), bump: 238 },
        }]
    );
    assert_eq!(
        ctx.transfer_nft(),
        vec![Cpi::TransferAsset {
            asset: key(20),
            collection: Some(key(21)),
            payer: key(2),
            authority: key(41),
            new_owner: key(1),
            signer: PdaSigner::Listing { asset: key(20), bump: 248 },
        }]
    );
}

#[test]
fn accept_token_offer_wrong_mint_fails() {
    let ctx = accept_token_ctx(key(70), key(71));
    assert_eq!(ctx.check_accounts(), Err(ConstraintError::ConstraintRaw));
    let mut bad_vault = accept_token_ctx(key(70), key(70));
    bad_vault.offer_vault_ata.owner = key(99);
    assert_eq!(bad_vault.check_accounts(), Err(ConstraintError::ConstraintTokenOwner));
    let mut bad_rewards = accept_token_ctx(key(70), key(70));
    bad_rewards.rewards_mint.mint_authority = None;
    assert_eq!(bad_rewards.check_accounts(), Err(ConstraintError::ConstraintMintMintAuthority));
}

#[test]
fn token_accounts_of_other_mint_fail() {
    let mut make = make_token_offer_ctx(key(1), key(20), key(70), 5);
    make.buyer_payment_ata.key = ata(key(1), key(71));
    assert_eq!(make.check_accounts(), Err(ConstraintError::ConstraintAssociated));

    let mut accept = accept_token_ctx(key(70), key(70));
    accept.offer_vault_ata.key = ata(key(60), key(71));
    assert_eq!(accept.check_accounts(), Err(ConstraintError::ConstraintAssociated));

    let mut other_program = accept_token_ctx(key(70), key(70));
    other_program.offer_vault_ata.program = key(91);
    assert_eq!(other_program.check_accounts(), Err(ConstraintError::ConstraintAssociatedTokenTokenProgram));
}

#[test]
fn make_then_cancel_token_offer_refunds_deposit() {
    let buyer = key(1);
    let asset = key(20);
    let mint = key(70);
    let mut make = make_token_offer_ctx(buyer, asset, mint, 1_000_000);
    assert_eq!(make.check_accounts(), Ok(()));
    make.init_offer(300_000, &MakeTokenOfferBumps { offer: 238 }).unwrap();
    let deposit = make.deposit_tokens(300_000);
    let held = tokens_to(&deposit, ata(key(60), key(70)));
    assert_eq!(held, 300_000);
    let cancel = CancelTokenOffer {
        buyer,
        asset,
        offer: make.offer,
        offer_key: make.offer_key,
        payment_mint: make.payment_mint,
        token_program: make.token_program,
        buyer_payment_ata: make.buyer_payment_ata,
        offer_vault_ata: TokenAccountState {
            key: ata(make.offer_key, mint),
            program: token_program(),
            mint,
            owner: make.offer_key,
            amount: held,
        },
    };
    assert_eq!(cancel.check_accounts(), Ok(()));
    assert_eq!(tokens_to(&cancel.refund_tokens(), ata(key(1), key(70))), 300_000);

    let mut wrong_vault_mint = cancel;
    wrong_vault_mint.offer_vault_ata.key = ata(make.offer_key, key(71));
    assert_eq!(wrong_vault_mint.check_accounts(), Err(ConstraintError::ConstraintAssociated));
}
