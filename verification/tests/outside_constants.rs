use turbine_q2_26_nft_marketplace::constants::MAX_FEE_BASIS_POINTS;
use turbine_q2_26_nft_marketplace::state::MplCore;

#[test]
fn fee_cap_matches_token_2022() {
    assert_eq!(
        MAX_FEE_BASIS_POINTS,
        anchor_spl::token_2022::spl_token_2022::extension::transfer_fee::MAX_FEE_BASIS_POINTS
    );
}

#[test]
fn asset_program_id_matches_mpl_core() {
    assert_eq!(MplCore::id().bytes, mpl_core::ID.to_bytes());
}
