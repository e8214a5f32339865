use turbine_q2_26_nft_marketplace::address::Address;
use turbine_q2_26_nft_marketplace::admin::{Init, InitBumps};
use turbine_q2_26_nft_marketplace::cpi::{Cpi, PdaSigner};
use turbine_q2_26_nft_marketplace::error::{ConstraintError, MarketplaceError};
use turbine_q2_26_nft_marketplace::listing::{Delist, List, ListBumps};
use turbine_q2_26_nft_marketplace::state::{Listing, MarketPlace, MplCore};

fn key(n: u8) -> Address {
    Address::new([n; 32])
}

/// Creates a marketplace of admin `maker` and returns its record.
fn fixture_marketplace(maker: Address, name: &str, fee: u16) -> MarketPlace {
    let mut ctx = Init {
        admin: maker,
        marketplace: MarketPlace {
            admin: key(0),
            fee: 0,
            bump: 0,
            treasury_bump: 0,
            rewards_bump: 0,
            name: String::new(),
        },
    };
    ctx.init(name.to_string(), fee, &InitBumps { marketplace: 250, treasury: 251, rewards_mint: 252 })
        .expect("marketplace creation should succeed");
    ctx.marketplace
}

fn empty_listing() -> Listing {
    Listing { maker: key(0), asset: key(0), price: 0, bump: 0, payment_mint: None }
}

fn list_ctx(maker: Address, asset: Address, collection: Option<Address>, payment_mint: Option<Address>) -> List {
    List { maker, asset, collection, listing: empty_listing(), listing_key: key(40), payment_mint }
}

#[test]
fn test_list_nft_success() {
    let maker = key(1);
    let marketplace = fixture_marketplace(maker, "ListingMarket", 250);
    assert_eq!(marketplace.fee, 250);
    let asset = key(20);
    let mut ctx = list_ctx(maker, asset, Some(key(21)), None);
    let plan = ctx.create_listing(1_000_000_000, &ListBumps { listing: 249 }).expect("listing should succeed");
    assert_eq!(
        ctx.listing,
        Listing { maker, asset, price: 1_000_000_000, bump: 249, payment_mint: None }
    );
    assert_eq!(
        plan,
        vec![Cpi::TransferAsset {
            asset,
            collection: Some(key(21)),
            payer: maker,
            authority: maker,
            new_owner: key(40),
            signer: PdaSigner::Unsigned,
        }],
        "the asset should go to the listing account"
    );
}

#[test]
fn test_list_invalid_price_zero_fails() {
    let maker = key(1);
    let _marketplace = fixture_marketplace(maker, "InvalidPriceListMarket", 250);
    let mut ctx = list_ctx(maker, key(20), None, None);
    let before = ctx;
    assert_eq!(
        ctx.create_listing(0, &ListBumps { listing: 249 }),
        Err(MarketplaceError::InvalidPrice),
        "listing with price = 0 should fail (InvalidPrice)"
    );
    assert_eq!(ctx, before);
}

#[test]
fn test_delist_wrong_maker_fails() {
    let real_maker = key(1);
    let _marketplace = fixture_marketplace(real_maker, "DelistWrongMakerMarket", 250);
    let impostor = key(66);
    let asset = key(20);
    let mut listed = list_ctx(real_maker, asset, None, None);
    listed.create_listing(5_000, &ListBumps { listing: 249 }).unwrap();
    let bad = Delist { maker: impostor, asset, collection: None, listing: listed.listing, listing_key: key(40) };
    assert_eq!(bad.check_accounts(), Err(ConstraintError::ConstraintHasOne), "delist by non-maker should fail");
}

#[test]
fn test_list_then_delist_roundtrip() {
    let maker = key(1);
    let _marketplace = fixture_marketplace(maker, "RoundtripListMarket", 200);
    let asset = key(20);
    let mut listed = list_ctx(maker, asset, None, None);
    let escrow = listed.create_listing(10_000_000_000, &ListBumps { listing: 247 }).unwrap();
    assert_eq!(
        escrow,
        vec![Cpi::TransferAsset {
            asset,
            collection: None,
            payer: maker,
            authority: maker,
            new_owner: key(40),
            signer: PdaSigner::Unsigned,
        }]
    );
    let delist = Delist { maker, asset, collection: None, listing: listed.listing, listing_key: key(40) };
    assert_eq!(delist.check_accounts(), Ok(()));
    assert_eq!(
        delist.cancel_listing(),
        vec![Cpi::TransferAsset {
            asset,
            collection: None,
            payer: maker,
            authority: key(40),
            new_owner: maker,
            signer: PdaSigner::Listing { asset, bump: 247 },
        }],
        "asset ownership is transferred back to maker"
    );
}

#[test]
fn delist_wrong_asset_fails() {
    let maker = key(1);
    let mut listed = list_ctx(maker, key(20), None, None);
    listed.create_listing(5, &ListBumps { listing: 1 }).unwrap();
    let bad = Delist { maker, asset: key(21), collection: None, listing: listed.listing, listing_key: key(40) };
    assert_eq!(bad.check_accounts(), Err(ConstraintError::ConstraintHasOne));
}

#[test]
fn listing_signer_seeds() {
    let seeds = PdaSigner::Listing { asset: key(20), bump: 247 }.seeds();
    assert_eq!(seeds, vec![b"listing".to_vec(), vec![20u8; 32], vec![247]]);
}

#[test]
fn mpl_core_program_id() {
    assert_eq!(
        MplCore::id().bytes,
        [
            175, 84, 171, 16, 189, 151, 165, 66, 160, 158, 247, 179, 152, 137, 221, 12, 211, 148, 164, 204, 233, 223,
            166, 205, 201, 126, 190, 45, 35, 91, 167, 72,
        ]
    );
}

#[test]
fn address_comparison() {
    assert!(key(3).same_as(&key(3)));
    let mut bytes = [3u8; 32];
    bytes[31] = 4;
    assert!(!key(3).same_as(&Address::new(bytes)));
}
