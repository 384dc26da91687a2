use solana_challenge::constants::{AGILITY, INTELLIGENCE, STRENGTH};
use solana_challenge::reputation::nft_point;
use solana_challenge::Errors;

#[test]
fn strength_point_doubles_health() {
    assert_eq!(nft_point(STRENGTH, 10, 20, 30), Ok(70));
}

#[test]
fn agility_point_doubles_power() {
    assert_eq!(nft_point(AGILITY, 10, 20, 30), Ok(90));
}

#[test]
fn intelligence_point_doubles_mana() {
    assert_eq!(nft_point(INTELLIGENCE, 10, 20, 30), Ok(80));
}

#[test]
fn unknown_kind_has_no_point() {
    assert_eq!(nft_point(3, 10, 20, 30), Err(Errors::InvalidNftKind));
    assert_eq!(nft_point(255, 0, 0, 0), Err(Errors::InvalidNftKind));
}

#[test]
fn point_of_largest_attributes_does_not_wrap() {
    let max = u32::MAX as u64;
    assert_eq!(nft_point(STRENGTH, u32::MAX, u32::MAX, u32::MAX), Ok(4 * max));
}

#[test]
fn zero_attributes_give_zero_point() {
    assert_eq!(nft_point(AGILITY, 0, 0, 0), Ok(0));
}

#[test]
fn error_messages() {
    assert_eq!(Errors::InvalidTokenOwner.message(), "Invalid Token Owner");
    assert_eq!(Errors::InvalidTokenMint.message(), "Invalid Token Mint");
    assert_eq!(Errors::AccessDenied.message(), "Access Denied");
    assert_eq!(Errors::MathOverflow.message(), "Math overflow");
    assert_eq!(Errors::InvalidMetadataProgram.message(), "Invalid Token Metadata Program");
    assert_eq!(
        Errors::InvalidNftKind.message(),
        "Invalid Master edtion. Should be strength or agility or intelligence"
    );
}
