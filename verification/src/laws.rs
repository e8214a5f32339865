use vstd::prelude::*;
use crate::address::Address;
use crate::admin::{init_error, ClaimSolFee, ClaimTokenFee, InitBumps};
use crate::buy::{reward, BuyWithToken};
use crate::constants::{MAX_FEE_BASIS_POINTS, MINT_DECIMALS};
use crate::cpi::{lamports_in, lamports_out, tokens_in, tokens_out, Cpi, PdaSigner};
use crate::fees::{fee_of, offer_split, sale_split};
use vstd::utf8::{encode_utf8, is_ascii_chars, is_ascii_chars_encode_utf8};
use crate::constants::MAX_NAME_LENGTH;
use crate::name::{is_blank, name_error};
use crate::listing::{release_asset, Delist, List};
use crate::offer::{
    AcceptSolOffer, AcceptTokenOffer, CancelSolOffer, CancelTokenOffer, MakeSolOffer,
    MakeSolOfferBumps, MakeTokenOffer, MakeTokenOfferBumps,
};
use crate::state::{associated_token_address, Listing, MarketPlace, MintState};

verus! {

/// At a fee below `MAX_FEE_BASIS_POINTS`, a positive amount is split without refusal into
/// a seller's share and a fee that add up to it; the fee is the amount times the rate,
/// rounded down, and is below the amount; a sale and an accepted offer split alike.
pub proof fn lemma_fee_split(amount: u64, fee_bps: u16)
    requires
        amount > 0,
        fee_bps < MAX_FEE_BASIS_POINTS,
    ensures
        fee_of(amount, fee_bps) == amount * fee_bps / (MAX_FEE_BASIS_POINTS as int),
        fee_of(amount, fee_bps) < amount,
        sale_split(amount, fee_bps) is Ok,
        sale_split(amount, fee_bps) == offer_split(amount, fee_bps),
        sale_split(amount, fee_bps)->Ok_0.0 + sale_split(amount, fee_bps)->Ok_0.1 == amount,
        sale_split(amount, fee_bps)->Ok_0.1 == fee_of(amount, fee_bps),
{
    let q = amount * fee_bps / (MAX_FEE_BASIS_POINTS as int);
    assert(q < amount) by (nonlinear_arith)
        requires
            amount > 0,
            0 <= fee_bps < 10000,
            q == amount * fee_bps / 10000int,
    ;
    assert(q >= 0) by (nonlinear_arith)
        requires
            amount > 0,
            0 <= fee_bps,
            q == amount * fee_bps / 10000int,
    ;
    assert(q % 0x1_0000_0000_0000_0000 == q);
}

/// A marketplace that creation accepts has a fee below `MAX_FEE_BASIS_POINTS`, so no
/// sale or accepted offer of a positive amount is ever refused for its fee.
pub proof fn lemma_created_marketplace_fee_is_payable(name: Seq<char>, fee: u16, amount: u64)
    requires
        init_error(name, fee) is None,
        amount > 0,
    ensures
        fee < MAX_FEE_BASIS_POINTS,
        sale_split(amount, fee) is Ok,
        offer_split(amount, fee) is Ok,
{
    lemma_fee_split(amount, fee);
}

/// At no fee the seller gets the whole amount and the treasury nothing.
pub proof fn lemma_zero_fee_pays_seller_all(amount: u64)
    requires
        amount > 0,
    ensures
        sale_split(amount, 0) == Ok::<(u64, u64), crate::error::MarketplaceError>((amount, 0)),
        offer_split(amount, 0) == Ok::<(u64, u64), crate::error::MarketplaceError>((amount, 0)),
{
    lemma_fee_split(amount, 0);
}

/// Only the marketplace's admin can claim its fees, in lamports or in tokens.
pub proof fn lemma_only_admin_claims(sol: ClaimSolFee, token: ClaimTokenFee)
    ensures
        sol.spec_check_accounts() is Ok ==> sol.admin == sol.marketplace.admin,
        token.spec_check_accounts() is Ok ==> token.admin == token.marketplace.admin,
{
}

/// A lamport claim that goes through leaves the treasury at least its rent minimum, and
/// pays exactly the amount claimed to the recipient.
pub proof fn lemma_claim_keeps_rent(claim: ClaimSolFee, amount: u64)
    requires
        claim.spec_claim_fees(amount) is Ok,
        claim.treasury != claim.recipient,
    ensures
        claim.treasury_lamports - amount >= claim.treasury_rent_minimum || claim.treasury_rent_minimum
            == 0,
        lamports_out(claim.spec_claim_fees(amount)->Ok_0, claim.treasury) == amount,
        lamports_in(claim.spec_claim_fees(amount)->Ok_0, claim.recipient) == amount,
{
    reveal_with_fuel(lamports_out, 2);
    reveal_with_fuel(lamports_in, 2);
}

/// Only the maker of a listing can withdraw it, and only for the asset it lists.
pub proof fn lemma_only_maker_delists(delist: Delist)
    ensures
        delist.spec_check_accounts() is Ok ==> delist.listing.maker == delist.maker
            && delist.listing.asset == delist.asset,
{
}

/// Listing an asset and then withdrawing that listing gives the asset back: listing
/// hands it from the maker to the listing account, and the maker's withdrawal passes its
/// checks and has the listing account hand it back to the maker.
pub proof fn lemma_list_then_delist_returns_asset(list: List, price: u64, bump: u8, delist: Delist)
    requires
        price > 0,
        delist.maker == list.maker,
        delist.asset == list.asset,
        delist.collection == list.collection,
        delist.listing_key == list.listing_key,
        delist.listing == list.listed(price, bump),
    ensures
        list.escrow() == (Cpi::TransferAsset {
            asset: list.asset,
            collection: list.collection,
            payer: list.maker,
            authority: list.maker,
            new_owner: list.listing_key,
            signer: PdaSigner::Unsigned,
        }),
        delist.spec_check_accounts() is Ok,
        release_asset(
            delist.asset,
            delist.collection,
            delist.listing,
            delist.listing_key,
            delist.maker,
            delist.maker,
        ) == (Cpi::TransferAsset {
            asset: list.asset,
            collection: list.collection,
            payer: list.maker,
            authority: list.listing_key,
            new_owner: list.maker,
            signer: PdaSigner::Listing { asset: list.asset, bump },
        }),
{
}

/// A purchase goes through only in the mint the listing names, from a listing of the
/// maker's for that asset, and takes from the taker's account exactly the price, of which
/// the maker's account gets the price less the fee and the treasury's account the fee; the
/// taker is then minted as many reward tokens as the price.
pub proof fn lemma_purchase_pays_price(buy: BuyWithToken)
    requires
        buy.spec_send_tokens() is Ok,
        buy.maker_payment_ata != buy.treasury_payment_ata,
    ensures
        buy.spec_check_accounts() is Ok ==> buy.listing.payment_mint == Some(buy.payment_mint.key)
            && buy.listing.maker == buy.maker && buy.listing.asset == buy.asset,
        tokens_out(buy.spec_send_tokens()->Ok_0, buy.taker_payment_ata.key) == buy.listing.price,
        tokens_in(buy.spec_send_tokens()->Ok_0, buy.maker_payment_ata) == buy.listing.price
            - fee_of(buy.listing.price, buy.marketplace.fee),
        tokens_in(buy.spec_send_tokens()->Ok_0, buy.treasury_payment_ata) == fee_of(
            buy.listing.price,
            buy.marketplace.fee,
        ),
        tokens_in(
            seq![
                reward(
                    buy.marketplace,
                    buy.marketplace_key,
                    buy.rewards_mint,
                    buy.taker_reward_ata,
                    buy.listing.price,
                ),
            ],
            buy.taker_reward_ata,
        ) == buy.listing.price,
{
    reveal_with_fuel(tokens_out, 3);
    reveal_with_fuel(tokens_in, 3);
    let plan = buy.spec_send_tokens()->Ok_0;
    assert(plan.drop_last().drop_last() =~= Seq::<Cpi>::empty());
    let r = seq![
        reward(
            buy.marketplace,
            buy.marketplace_key,
            buy.rewards_mint,
            buy.taker_reward_ata,
            buy.listing.price,
        ),
    ];
    assert(r.drop_last() =~= Seq::<Cpi>::empty());
}

/// Only the buyer who made an offer can withdraw it, and a withdrawal returns everything
/// the vault holds to that buyer.
pub proof fn lemma_cancel_refunds_vault(sol: CancelSolOffer, token: CancelTokenOffer)
    requires
        sol.offer_vault != sol.buyer,
    ensures
        sol.spec_check_accounts() is Ok ==> sol.offer.buyer == sol.buyer,
        token.spec_check_accounts() is Ok ==> token.offer.buyer == token.buyer
            && token.buyer_payment_ata.owner == token.buyer,
        lamports_out(seq![sol.refund()], sol.offer_vault) == sol.offer_vault_lamports,
        lamports_in(seq![sol.refund()], sol.buyer) == sol.offer_vault_lamports,
        tokens_out(seq![token.refund()], token.offer_vault_ata.key) == token.offer_vault_ata.amount,
{
    reveal_with_fuel(lamports_out, 2);
    reveal_with_fuel(lamports_in, 2);
    reveal_with_fuel(tokens_out, 2);
    assert(seq![sol.refund()].drop_last() =~= Seq::<Cpi>::empty());
    assert(seq![token.refund()].drop_last() =~= Seq::<Cpi>::empty());
}

/// A lamport offer pays out on acceptance what its buyer deposited: the offer recorded
/// for `amount` and the deposit of `amount` into the vault are followed, once the listing's
/// maker accepts it on a marketplace that creation accepted, by transfers out of that vault
/// that add up to `amount`, split between the maker and the treasury.
pub proof fn lemma_sol_offer_pays_out_deposit(
    make: MakeSolOffer,
    amount: u64,
    bumps: MakeSolOfferBumps,
    accept: AcceptSolOffer,
)
    requires
        amount > 0,
        accept.offer == make.offered(amount, bumps),
        accept.offer_vault == make.offer_vault,
        accept.buyer == make.buyer,
        accept.asset == make.asset,
        accept.marketplace.fee < MAX_FEE_BASIS_POINTS,
        accept.maker != accept.treasury,
    ensures
        accept.spec_send_sol() is Ok,
        lamports_in(seq![make.deposit(amount)], make.offer_vault) == amount,
        lamports_out(accept.spec_send_sol()->Ok_0, make.offer_vault) == amount,
        lamports_in(accept.spec_send_sol()->Ok_0, accept.maker) + lamports_in(
            accept.spec_send_sol()->Ok_0,
            accept.treasury,
        ) == amount,
{
    lemma_fee_split(amount, accept.marketplace.fee);
    reveal_with_fuel(lamports_out, 3);
    reveal_with_fuel(lamports_in, 3);
    let plan = accept.spec_send_sol()->Ok_0;
    assert(plan.drop_last().drop_last() =~= Seq::<Cpi>::empty());
    assert(seq![make.deposit(amount)].drop_last() =~= Seq::<Cpi>::empty());
}

/// Accepting a token offer takes from the offer's vault exactly the offered amount,
/// split between the maker and the treasury, and mints the buyer as many reward tokens.
pub proof fn lemma_token_offer_pays_amount(accept: AcceptTokenOffer)
    requires
        accept.spec_send_tokens() is Ok,
        accept.maker_payment_ata != accept.treasury_payment_ata,
    ensures
        accept.spec_check_accounts() is Ok ==> accept.offer.payment_mint == Some(
            accept.payment_mint.key,
        ) && accept.listing.maker == accept.maker && accept.offer.buyer == accept.buyer,
        tokens_out(accept.spec_send_tokens()->Ok_0, accept.offer_vault_ata.key) == accept.offer.amount,
        tokens_in(accept.spec_send_tokens()->Ok_0, accept.maker_payment_ata) + tokens_in(
            accept.spec_send_tokens()->Ok_0,
            accept.treasury_payment_ata,
        ) == accept.offer.amount,
        tokens_in(
            seq![
                reward(
                    accept.marketplace,
                    accept.marketplace_key,
                    accept.rewards_mint,
                    accept.buyer_reward_ata,
                    accept.offer.amount,
                ),
            ],
            accept.buyer_reward_ata,
        ) == accept.offer.amount,
{
    reveal_with_fuel(tokens_out, 3);
    reveal_with_fuel(tokens_in, 3);
    let plan = accept.spec_send_tokens()->Ok_0;
    assert(plan.drop_last().drop_last() =~= Seq::<Cpi>::empty());
    let r = seq![
        reward(
            accept.marketplace,
            accept.marketplace_key,
            accept.rewards_mint,
            accept.buyer_reward_ata,
            accept.offer.amount,
        ),
    ];
    assert(r.drop_last() =~= Seq::<Cpi>::empty());
}

/// Every marketplace that creation records is well formed.
pub proof fn lemma_created_marketplace_is_well_formed(
    admin: Address,
    name: String,
    fee: u16,
    bumps: InitBumps,
)
    requires
        init_error(name@, fee) is None,
    ensures
        (MarketPlace {
            admin,
            fee,
            bump: bumps.marketplace,
            treasury_bump: bumps.treasury,
            rewards_bump: bumps.rewards_mint,
            name,
        }).well_formed(),
{
}

/// Buying a listing that listing recorded, on a well-formed marketplace, is never refused
/// by the payment decision, which plans the two payments.
pub proof fn lemma_created_listing_is_payable(list: List, price: u64, bump: u8, buy: BuyWithToken)
    requires
        price > 0,
        buy.listing == list.listed(price, bump),
        buy.marketplace.well_formed(),
    ensures
        buy.spec_send_tokens() is Ok,
        buy.spec_send_tokens()->Ok_0.len() == 2,
{
    lemma_fee_split(price, buy.marketplace.fee);
}

/// Accepting an offer that making an offer recorded, on a well-formed marketplace, is
/// never refused by the payment decision, for lamport and for token offers.
pub proof fn lemma_created_offer_is_payable(
    make_sol: MakeSolOffer,
    sol_amount: u64,
    sol_bumps: MakeSolOfferBumps,
    accept_sol: AcceptSolOffer,
    make_token: MakeTokenOffer,
    token_amount: u64,
    token_bumps: MakeTokenOfferBumps,
    accept_token: AcceptTokenOffer,
)
    requires
        sol_amount > 0,
        accept_sol.offer == make_sol.offered(sol_amount, sol_bumps),
        accept_sol.marketplace.well_formed(),
        token_amount > 0,
        accept_token.offer == make_token.offered(token_amount, token_bumps),
        accept_token.marketplace.well_formed(),
    ensures
        accept_sol.spec_send_sol() is Ok,
        accept_token.spec_send_tokens() is Ok,
{
    lemma_fee_split(sol_amount, accept_sol.marketplace.fee);
    lemma_fee_split(token_amount, accept_token.marketplace.fee);
}

/// Making a lamport offer and then withdrawing it returns the deposit: the buyer's
/// withdrawal passes its checks and, the vault holding what was deposited, moves exactly
/// that amount from the vault back to the buyer.
pub proof fn lemma_make_then_cancel_refunds_deposit(
    make: MakeSolOffer,
    amount: u64,
    bumps: MakeSolOfferBumps,
    cancel: CancelSolOffer,
)
    requires
        amount > 0,
        cancel.buyer == make.buyer,
        cancel.asset == make.asset,
        cancel.offer == make.offered(amount, bumps),
        cancel.offer_vault == make.offer_vault,
        cancel.offer_vault != cancel.buyer,
        cancel.offer_vault_lamports == lamports_in(seq![make.deposit(amount)], make.offer_vault),
    ensures
        cancel.spec_check_accounts() is Ok,
        lamports_out(seq![cancel.refund()], make.offer_vault) == amount,
        lamports_in(seq![cancel.refund()], make.buyer) == amount,
{
    reveal_with_fuel(lamports_out, 2);
    reveal_with_fuel(lamports_in, 2);
    assert(seq![make.deposit(amount)].drop_last() =~= Seq::<Cpi>::empty());
    assert(seq![cancel.refund()].drop_last() =~= Seq::<Cpi>::empty());
}

/// Program-derived signers are told apart by their seeds: two signers with the same
/// seeds are the same signer (a marketplace by the characters of its name), so no listing,
/// offer, vault, treasury or marketplace account can sign in another's place.
pub proof fn lemma_signer_seeds_identify_signer(a: PdaSigner, b: PdaSigner)
    requires
        a.spec_seeds() == b.spec_seeds(),
        !(a is Unsigned),
        !(b is Unsigned),
    ensures
        !(a is Marketplace) ==> a == b,
        a is Marketplace ==> b is Marketplace && a->Marketplace_bump == b->Marketplace_bump
            && a->Marketplace_name@ == b->Marketplace_name@,
{
    broadcast use vstd::array::group_array_axioms;
    let sa = a.spec_seeds();
    let sb = b.spec_seeds();
    assert(sa[0] == sb[0]);
    assert(sa[0].len() == sb[0].len());
    assert(sa.len() == sb.len());
    assert(sa[sa.len() - 1] == sb[sb.len() - 1]);
    assert(sa[sa.len() - 1][0] == sb[sb.len() - 1][0]);
    match a {
        PdaSigner::Marketplace { name, bump } => {
            if let PdaSigner::Marketplace { name: name_b, bump: bump_b } = b {
                assert(sa[1] == sb[1]);
                assert(encode_utf8(name@) == encode_utf8(name_b@));
                vstd::utf8::encode_utf8_decode_utf8(name@);
                vstd::utf8::encode_utf8_decode_utf8(name_b@);
            }
        },
        PdaSigner::Treasury { marketplace, bump } => {
            assert(sa[1] == sb[1]);
            if let PdaSigner::Treasury { marketplace: m, bump: bb } = b {
                assert(marketplace.bytes =~= m.bytes);
            }
        },
        PdaSigner::Listing { asset, bump } => {
            assert(sa[1] == sb[1]);
            if let PdaSigner::Listing { asset: x, bump: bb } = b {
                assert(asset.bytes =~= x.bytes);
            }
        },
        PdaSigner::Offer { asset, buyer, bump } => {
            assert(sa[1] == sb[1]);
            assert(sa[2] == sb[2]);
            if let PdaSigner::Offer { asset: x, buyer: y, bump: bb } = b {
                assert(asset.bytes =~= x.bytes);
                assert(buyer.bytes =~= y.bytes);
            }
        },
        PdaSigner::OfferVault { asset, buyer, bump } => {
            assert(sa[1] == sb[1]);
            assert(sa[2] == sb[2]);
            if let PdaSigner::OfferVault { asset: x, buyer: y, bump: bb } = b {
                assert(asset.bytes =~= x.bytes);
                assert(buyer.bytes =~= y.bytes);
            }
        },
        PdaSigner::Unsigned => {},
    }
}

/// Making a token offer and then withdrawing it returns the deposit: the buyer's
/// withdrawal passes its checks and moves everything the vault's token account holds, the
/// deposit and whatever `prior` it held before, back to the buyer's token account.
pub proof fn lemma_make_then_cancel_token_offer_refunds_deposit(
    make: MakeTokenOffer,
    amount: u64,
    bumps: MakeTokenOfferBumps,
    prior: u64,
    cancel: CancelTokenOffer,
)
    requires
        amount > 0,
        make.spec_check_accounts() is Ok,
        make.offer_vault_ata == associated_token_address(
            make.offer_key,
            make.payment_mint.key,
            make.token_program,
        ),
        make.offer_vault_ata != make.buyer_payment_ata.key,
        cancel.buyer == make.buyer,
        cancel.asset == make.asset,
        cancel.offer == make.offered(amount, bumps),
        cancel.offer_key == make.offer_key,
        cancel.payment_mint == make.payment_mint,
        cancel.token_program == make.token_program,
        cancel.buyer_payment_ata == make.buyer_payment_ata,
        cancel.offer_vault_ata.key == make.offer_vault_ata,
        cancel.offer_vault_ata.program == make.token_program,
        cancel.offer_vault_ata.owner == make.offer_key,
        cancel.offer_vault_ata.amount == prior + tokens_in(
            seq![make.deposit(amount)],
            make.offer_vault_ata,
        ),
    ensures
        cancel.spec_check_accounts() is Ok,
        tokens_out(seq![make.deposit(amount)], make.buyer_payment_ata.key) == amount,
        tokens_out(seq![cancel.refund()], make.offer_vault_ata) == prior + amount,
        tokens_in(seq![cancel.refund()], make.buyer_payment_ata.key) == prior + amount,
{
    reveal_with_fuel(tokens_out, 2);
    reveal_with_fuel(tokens_in, 2);
    assert(seq![make.deposit(amount)].drop_last() =~= Seq::<Cpi>::empty());
    assert(seq![cancel.refund()].drop_last() =~= Seq::<Cpi>::empty());
}

/// A name of ASCII characters that is not blank is refused as too long exactly when it
/// has more than `MAX_NAME_LENGTH` characters.
pub proof fn lemma_ascii_name_length(name: Seq<char>)
    requires
        is_ascii_chars(name),
        !is_blank(name),
    ensures
        name_error(name) == Some(crate::error::MarketplaceError::NameTooLong) <==> name.len()
            > MAX_NAME_LENGTH as nat,
        name_error(name) is None <==> name.len() <= MAX_NAME_LENGTH as nat,
{
    is_ascii_chars_encode_utf8(name);
}

} // verus!

verus! {

/// A token fee claim goes through exactly when the amount is positive and the treasury's
/// token account holds at least that much; it then plans one transfer, signed by the
/// treasury's seeds, of exactly the amount claimed, in the payment mint and with its
/// decimals, out of the treasury's token account and into the recipient's.
pub proof fn lemma_token_claim_pays_amount(claim: ClaimTokenFee, amount: u64)
    ensures
        claim.spec_claim_fees(amount) is Ok <==> (0 < amount
            && amount <= claim.treasury_payment_ata.amount),
        claim.spec_claim_fees(amount) is Ok ==> claim.spec_claim_fees(amount)->Ok_0 == seq![
            (Cpi::TransferTokens {
                from: claim.treasury_payment_ata.key,
                mint: claim.payment_mint.key,
                to: claim.recipient_payment_ata,
                authority: claim.treasury,
                amount,
                decimals: claim.payment_mint.decimals,
                signer: PdaSigner::Treasury {
                    marketplace: claim.marketplace_key,
                    bump: claim.marketplace.treasury_bump,
                },
            }),
        ],
        claim.spec_claim_fees(amount) is Ok ==> tokens_out(
            claim.spec_claim_fees(amount)->Ok_0,
            claim.treasury_payment_ata.key,
        ) == amount && tokens_in(claim.spec_claim_fees(amount)->Ok_0, claim.recipient_payment_ata)
            == amount,
{
    reveal_with_fuel(tokens_out, 2);
    reveal_with_fuel(tokens_in, 2);
    if claim.spec_claim_fees(amount) is Ok {
        assert(claim.spec_claim_fees(amount)->Ok_0.drop_last() =~= Seq::<Cpi>::empty());
    }
}

/// A purchase goes through exactly when the price is positive and its fee is below it;
/// it then plans two transfers, both out of the taker's token account on the taker's own
/// signature, in the payment mint and declaring that mint's decimals: the price less the
/// fee to the maker's account, then the fee to the treasury's.
pub proof fn lemma_purchase_transfers_in_payment_mint(buy: BuyWithToken)
    ensures
        buy.spec_send_tokens() is Ok <==> (buy.listing.price > 0 && fee_of(
            buy.listing.price,
            buy.marketplace.fee,
        ) < buy.listing.price),
        buy.spec_send_tokens() is Ok ==> buy.spec_send_tokens()->Ok_0 == seq![
            (Cpi::TransferTokens {
                from: buy.taker_payment_ata.key,
                mint: buy.payment_mint.key,
                to: buy.maker_payment_ata,
                authority: buy.taker,
                amount: (buy.listing.price - fee_of(buy.listing.price, buy.marketplace.fee)) as u64,
                decimals: buy.payment_mint.decimals,
                signer: PdaSigner::Unsigned,
            }),
            (Cpi::TransferTokens {
                from: buy.taker_payment_ata.key,
                mint: buy.payment_mint.key,
                to: buy.treasury_payment_ata,
                authority: buy.taker,
                amount: fee_of(buy.listing.price, buy.marketplace.fee),
                decimals: buy.payment_mint.decimals,
                signer: PdaSigner::Unsigned,
            }),
        ],
        buy.spec_send_tokens() is Ok ==> forall|i: int|
            0 <= i < buy.spec_send_tokens()->Ok_0.len() ==> (#[trigger] buy.spec_send_tokens()->Ok_0[i]
                matches Cpi::TransferTokens { from, mint, authority, decimals, .. } && from
                == buy.taker_payment_ata.key && mint == buy.payment_mint.key && authority
                == buy.taker && decimals == buy.payment_mint.decimals),
{
}

/// Accepting a lamport offer goes through exactly when the offer is positive and its fee
/// does not exceed it; it then plans two transfers out of the offer's vault, each signed
/// by the vault's own seeds (its asset, its buyer and its bump): the amount less the fee
/// to the maker, then the fee to the treasury.
pub proof fn lemma_sol_offer_paid_by_vault(accept: AcceptSolOffer, vault_bump: u8)
    requires
        accept.offer.vault_bump == Some(vault_bump),
    ensures
        accept.spec_send_sol() is Ok <==> (accept.offer.amount > 0 && fee_of(
            accept.offer.amount,
            accept.marketplace.fee,
        ) <= accept.offer.amount),
        accept.spec_send_sol() is Ok ==> accept.spec_send_sol()->Ok_0 == seq![
            (Cpi::TransferLamports {
                from: accept.offer_vault,
                to: accept.maker,
                lamports: (accept.offer.amount - fee_of(accept.offer.amount, accept.marketplace.fee)) as u64,
                signer: PdaSigner::OfferVault {
                    asset: accept.asset,
                    buyer: accept.buyer,
                    bump: vault_bump,
                },
            }),
            (Cpi::TransferLamports {
                from: accept.offer_vault,
                to: accept.treasury,
                lamports: fee_of(accept.offer.amount, accept.marketplace.fee),
                signer: PdaSigner::OfferVault {
                    asset: accept.asset,
                    buyer: accept.buyer,
                    bump: vault_bump,
                },
            }),
        ],
        accept.spec_send_sol() is Ok ==> forall|i: int|
            0 <= i < accept.spec_send_sol()->Ok_0.len() ==> (#[trigger] accept.spec_send_sol()->Ok_0[i]
                matches Cpi::TransferLamports { from, signer, .. } && from == accept.offer_vault
                && signer == (PdaSigner::OfferVault {
                asset: accept.asset,
                buyer: accept.buyer,
                bump: vault_bump,
            })),
{
}

/// Accepting a token offer goes through exactly when the offer is positive and its fee
/// does not exceed it; it then plans two transfers out of the offer's vault account, each
/// naming the offer account as authority and signed by the offer's seeds, in the payment
/// mint and with its decimals: the amount less the fee to the maker's account, then the
/// fee to the treasury's.
pub proof fn lemma_token_offer_paid_by_offer_account(accept: AcceptTokenOffer)
    ensures
        accept.spec_send_tokens() is Ok <==> (accept.offer.amount > 0 && fee_of(
            accept.offer.amount,
            accept.marketplace.fee,
        ) <= accept.offer.amount),
        accept.spec_send_tokens() is Ok ==> accept.spec_send_tokens()->Ok_0 == seq![
            (Cpi::TransferTokens {
                from: accept.offer_vault_ata.key,
                mint: accept.payment_mint.key,
                to: accept.maker_payment_ata,
                authority: accept.offer_key,
                amount: (accept.offer.amount - fee_of(accept.offer.amount, accept.marketplace.fee)) as u64,
                decimals: accept.payment_mint.decimals,
                signer: PdaSigner::Offer {
                    asset: accept.asset,
                    buyer: accept.buyer,
                    bump: accept.offer.bump,
                },
            }),
            (Cpi::TransferTokens {
                from: accept.offer_vault_ata.key,
                mint: accept.payment_mint.key,
                to: accept.treasury_payment_ata,
                authority: accept.offer_key,
                amount: fee_of(accept.offer.amount, accept.marketplace.fee),
                decimals: accept.payment_mint.decimals,
                signer: PdaSigner::Offer {
                    asset: accept.asset,
                    buyer: accept.buyer,
                    bump: accept.offer.bump,
                },
            }),
        ],
        accept.spec_send_tokens() is Ok ==> forall|i: int|
            0 <= i < accept.spec_send_tokens()->Ok_0.len() ==> (
            #[trigger] accept.spec_send_tokens()->Ok_0[i] matches Cpi::TransferTokens {
                from,
                authority,
                signer,
                ..
            } && from == accept.offer_vault_ata.key && authority == accept.offer_key && signer
                == (PdaSigner::Offer { asset: accept.asset, buyer: accept.buyer, bump: accept.offer.bump })),
{
}

} // verus!

verus! {

/// A lamport fee claim goes through exactly when the amount is positive and the treasury
/// keeps at least its rent minimum afterwards; it then plans one transfer of exactly the
/// amount claimed from the treasury to the recipient, signed by the treasury's seeds.
pub proof fn lemma_sol_claim_pays_amount(claim: ClaimSolFee, amount: u64)
    ensures
        claim.spec_claim_fees(amount) is Ok <==> (0 < amount && amount <= claim.treasury_lamports
            && claim.treasury_lamports - amount >= claim.treasury_rent_minimum) || (0 < amount
            && amount > claim.treasury_lamports && claim.treasury_rent_minimum == 0),
        claim.spec_claim_fees(amount) is Ok ==> claim.spec_claim_fees(amount)->Ok_0 == seq![
            (Cpi::TransferLamports {
                from: claim.treasury,
                to: claim.recipient,
                lamports: amount,
                signer: PdaSigner::Treasury {
                    marketplace: claim.marketplace_key,
                    bump: claim.marketplace.treasury_bump,
                },
            }),
        ],
{
}

/// Listing hands the asset from the maker, on the maker's own signature, to the listing
/// account; every release of a listed asset (a delisting, a purchase, an accepted offer)
/// is the listing account handing that asset on, signed by the listing's seeds; and every
/// reward is minted in the given mint with `MINT_DECIMALS` decimals by the marketplace,
/// signed by the marketplace's seeds.
pub proof fn lemma_asset_and_reward_requests(
    list: List,
    listing: Listing,
    listing_key: Address,
    asset: Address,
    collection: Option<Address>,
    payer: Address,
    new_owner: Address,
    marketplace: MarketPlace,
    marketplace_key: Address,
    rewards_mint: MintState,
    to: Address,
    amount: u64,
)
    ensures
        list.escrow() == (Cpi::TransferAsset {
            asset: list.asset,
            collection: list.collection,
            payer: list.maker,
            authority: list.maker,
            new_owner: list.listing_key,
            signer: PdaSigner::Unsigned,
        }),
        release_asset(asset, collection, listing, listing_key, payer, new_owner) == (
        Cpi::TransferAsset {
            asset,
            collection,
            payer,
            authority: listing_key,
            new_owner,
            signer: PdaSigner::Listing { asset, bump: listing.bump },
        }),
        reward(marketplace, marketplace_key, rewards_mint, to, amount) == (Cpi::MintTokens {
            mint: rewards_mint.key,
            to,
            authority: marketplace_key,
            amount,
            decimals: MINT_DECIMALS,
            signer: PdaSigner::Marketplace { name: marketplace.name, bump: marketplace.bump },
        }),
{
}

/// Making an offer moves exactly the amount offered from the buyer, on the buyer's own
/// signature, into the offer's vault (for a token offer: in the payment mint, declaring
/// its decimals, from the buyer's token account into the vault's).
pub proof fn lemma_deposits_come_from_buyer(sol: MakeSolOffer, token: MakeTokenOffer, amount: u64)
    ensures
        sol.deposit(amount) == (Cpi::TransferLamports {
            from: sol.buyer,
            to: sol.offer_vault,
            lamports: amount,
            signer: PdaSigner::Unsigned,
        }),
        token.deposit(amount) == (Cpi::TransferTokens {
            from: token.buyer_payment_ata.key,
            mint: token.payment_mint.key,
            to: token.offer_vault_ata,
            authority: token.buyer,
            amount,
            decimals: token.payment_mint.decimals,
            signer: PdaSigner::Unsigned,
        }),
{
}

/// Withdrawing an offer returns the vault's whole balance to the buyer: a lamport vault
/// pays on its own seeds; a token vault pays, in the payment mint and with its decimals,
/// on the offer account's authority and seeds, and is then closed in the buyer's favour
/// by the offer account (as it is after an accepted token offer).
pub proof fn lemma_withdrawals_signed_by_holder(
    sol: CancelSolOffer,
    vault_bump: u8,
    token: CancelTokenOffer,
    accept: AcceptTokenOffer,
)
    requires
        sol.offer.vault_bump == Some(vault_bump),
    ensures
        sol.refund() == (Cpi::TransferLamports {
            from: sol.offer_vault,
            to: sol.buyer,
            lamports: sol.offer_vault_lamports,
            signer: PdaSigner::OfferVault { asset: sol.asset, buyer: sol.buyer, bump: vault_bump },
        }),
        token.refund() == (Cpi::TransferTokens {
            from: token.offer_vault_ata.key,
            mint: token.payment_mint.key,
            to: token.buyer_payment_ata.key,
            authority: token.offer_key,
            amount: token.offer_vault_ata.amount,
            decimals: token.payment_mint.decimals,
            signer: PdaSigner::Offer { asset: token.asset, buyer: token.buyer, bump: token.offer.bump },
        }),
        token.close() == (Cpi::CloseTokenAccount {
            account: token.offer_vault_ata.key,
            destination: token.buyer,
            authority: token.offer_key,
            signer: PdaSigner::Offer { asset: token.asset, buyer: token.buyer, bump: token.offer.bump },
        }),
        accept.close() == (Cpi::CloseTokenAccount {
            account: accept.offer_vault_ata.key,
            destination: accept.buyer,
            authority: accept.offer_key,
            signer: PdaSigner::Offer { asset: accept.asset, buyer: accept.buyer, bump: accept.offer.bump },
        }),
{
}

} // verus!
