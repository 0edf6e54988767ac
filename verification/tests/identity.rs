use std::collections::HashSet;

use anchor_lang::solana_program::pubkey::Pubkey;
use solana_universal_nft::state::origin_nft::{
    check_pda, mint_to_token_id, origin_address, text_fits, token_id_preimage, OriginNft,
};
use solana_universal_nft::{UniversalNftErrorCode, ID};

const MINT: [u8; 32] = [7u8; 32];

const TOKEN_ID_NONCE_1: [u8; 32] = [
    157, 28, 76, 72, 13, 79, 4, 72, 201, 28, 130, 231, 136, 170, 181, 196, 23, 147, 112, 177, 83,
    220, 139, 136, 42, 10, 254, 142, 199, 183, 95, 27,
];

const TOKEN_ID_NONCE_2: [u8; 32] = [
    86, 226, 230, 193, 26, 182, 103, 8, 157, 126, 249, 69, 158, 218, 77, 98, 136, 92, 169, 206,
    46, 86, 251, 210, 125, 0, 92, 23, 62, 118, 193, 221,
];

const ADDRESS_NONCE_1: [u8; 32] = [
    198, 80, 128, 209, 200, 239, 16, 190, 45, 90, 89, 102, 139, 220, 51, 63, 98, 198, 33, 151,
    187, 247, 216, 244, 63, 80, 250, 29, 168, 225, 181, 62,
];

#[test]
fn preimage_is_address_then_slot_then_nonce_little_endian() {
    let bytes = token_id_preimage(&MINT, 100, 1);
    let mut expected = vec![7u8; 32];
    expected.extend_from_slice(&[100, 0, 0, 0, 0, 0, 0, 0]);
    expected.extend_from_slice(&[1, 0, 0, 0, 0, 0, 0, 0]);
    assert_eq!(bytes, expected);
    let bytes = token_id_preimage(&MINT, 0x0102030405060708, u64::MAX);
    assert_eq!(&bytes[32..40], &[8, 7, 6, 5, 4, 3, 2, 1]);
    assert_eq!(&bytes[40..48], &[255u8; 8]);
}

#[test]
fn token_id_is_the_sha256_of_the_preimage() {
    assert_eq!(mint_to_token_id(&MINT, 100, 1), TOKEN_ID_NONCE_1);
    assert_eq!(mint_to_token_id(&MINT, 100, 2), TOKEN_ID_NONCE_2);
}

#[test]
fn token_id_is_deterministic() {
    assert_eq!(mint_to_token_id(&MINT, 5, 9), mint_to_token_id(&MINT, 5, 9));
}

#[test]
fn token_id_depends_on_each_input() {
    let base = mint_to_token_id(&MINT, 100, 1);
    assert_ne!(base, mint_to_token_id(&[8u8; 32], 100, 1));
    assert_ne!(base, mint_to_token_id(&MINT, 101, 1));
    assert_ne!(base, mint_to_token_id(&MINT, 100, 2));
    assert_ne!(mint_to_token_id(&MINT, 1, 2), mint_to_token_id(&MINT, 2, 1));
}

#[test]
fn ten_thousand_triples_give_ten_thousand_token_ids() {
    let mut seen: HashSet<[u8; 32]> = HashSet::new();
    let mut mint = [0u8; 32];
    for i in 0u64..10_000 {
        mint[0] = (i % 7) as u8;
        mint[31] = (i % 3) as u8;
        let token_id = mint_to_token_id(&mint, 1_000 + i / 100, 1 + i);
        assert!(seen.insert(token_id), "collision at sample {}", i);
    }
    assert_eq!(seen.len(), 10_000);
}

#[test]
fn origin_address_is_the_program_derived_address() {
    assert_eq!(origin_address(&TOKEN_ID_NONCE_1), Some((ADDRESS_NONCE_1, 254)));
}

#[test]
fn origin_address_agrees_with_the_sdk() {
    for nonce in 1u64..20 {
        let token_id = mint_to_token_id(&MINT, 100, nonce);
        let (address, bump) = Pubkey::find_program_address(
            &[&token_id, &OriginNft::SEED],
            &Pubkey::new_from_array(ID),
        );
        assert_eq!(origin_address(&token_id), Some((address.to_bytes(), bump)));
    }
}

#[test]
fn origin_address_of_an_overlong_seed_is_none() {
    assert_eq!(origin_address(&[1u8; 33]), None);
}

#[test]
fn origin_seed_spells_nft_origin() {
    assert_eq!(&OriginNft::SEED, b"nft_origin");
}

#[test]
fn program_id_is_the_declared_address() {
    assert_eq!(
        Pubkey::new_from_array(ID).to_string(),
        "A9FvZ2NMVPug73mYiKfkJEaB5NwxKTNsJvZeM6dqiufY"
    );
}

#[test]
fn validate_pda_accepts_the_derived_address() {
    assert_eq!(
        OriginNft::validate_pda(ADDRESS_NONCE_1, &TOKEN_ID_NONCE_1),
        Ok((ADDRESS_NONCE_1, 254))
    );
}

#[test]
fn validate_pda_rejects_any_other_address() {
    let mut other = ADDRESS_NONCE_1;
    other[31] ^= 1;
    assert_eq!(
        OriginNft::validate_pda(other, &TOKEN_ID_NONCE_1),
        Err(UniversalNftErrorCode::AddressMismatch)
    );
    assert_eq!(
        OriginNft::validate_pda(ADDRESS_NONCE_1, &TOKEN_ID_NONCE_2),
        Err(UniversalNftErrorCode::AddressMismatch)
    );
    assert_eq!(
        OriginNft::validate_pda(TOKEN_ID_NONCE_1, &TOKEN_ID_NONCE_1),
        Err(UniversalNftErrorCode::AddressMismatch)
    );
}

#[test]
fn validate_pda_rejects_a_token_id_without_address() {
    assert_eq!(
        OriginNft::validate_pda(ADDRESS_NONCE_1, &[1u8; 33]),
        Err(UniversalNftErrorCode::AddressMismatch)
    );
}

#[test]
fn check_pda_compares_with_what_was_derived() {
    assert_eq!(check_pda(&[1u8; 32], Some(([1u8; 32], 9))), Ok(([1u8; 32], 9)));
    assert_eq!(
        check_pda(&[1u8; 32], Some(([2u8; 32], 9))),
        Err(UniversalNftErrorCode::AddressMismatch)
    );
    assert_eq!(check_pda(&[1u8; 32], None), Err(UniversalNftErrorCode::AddressMismatch));
}

#[test]
fn text_limits_are_those_of_token_metadata() {
    let name = "n".repeat(32);
    let symbol = "s".repeat(10);
    let uri = "u".repeat(200);
    assert!(text_fits(&name, &symbol, &uri));
    assert!(!text_fits(&"n".repeat(33), &symbol, &uri));
    assert!(!text_fits(&name, &"s".repeat(11), &uri));
    assert!(!text_fits(&name, &symbol, &"u".repeat(201)));
    assert!(text_fits(&String::new(), &String::new(), &String::new()));
}

#[test]
fn text_limits_count_bytes_not_characters() {
    let name = "é".repeat(16);
    assert_eq!(name.len(), 32);
    assert!(text_fits(&name, &String::new(), &String::new()));
    let name = "é".repeat(17);
    assert!(!text_fits(&name, &String::new(), &String::new()));
}
