//! The origin record of a bridged asset, the token id it is filed under, and
//! the address it must be stored at.

use crate::bytes::{append_bytes, bytes_eq};
use crate::error::UniversalNftErrorCode;
use crate::ledger::{
    max_name_length, max_symbol_length, max_uri_length, sha256, spec_find_program_address,
    spec_sha256, try_find_program_address,
};
use crate::ID;
use vstd::bytes::{lemma_auto_spec_u64_to_from_le_bytes, spec_u64_to_le_bytes, u64_to_le_bytes};
use vstd::prelude::*;
use vstd::utf8::encode_utf8;

verus! {

/// The provenance entry of one bridged asset. Written once, never changed.
#[derive(Debug, PartialEq, Eq)]
pub struct OriginNft {
    pub token_id: [u8; 32],
    /// Slot at which the token id was computed.
    pub slot: u64,
    /// The asset's address on this ledger.
    pub mint: [u8; 32],
    pub name: String,
    pub symbol: String,
    pub uri: String,
    /// Bump seed of the address the record is stored at.
    pub bump: u8,
}

/// An origin record as plain mathematical data.
pub ghost struct OriginNftView {
    pub token_id: Seq<u8>,
    pub slot: u64,
    pub mint: Seq<u8>,
    pub name: Seq<char>,
    pub symbol: Seq<char>,
    pub uri: Seq<char>,
    pub bump: u8,
}

impl View for OriginNft {
    type V = OriginNftView;

    open spec fn view(&self) -> OriginNftView {
        OriginNftView {
            token_id: self.token_id@,
            slot: self.slot,
            mint: self.mint@,
            name: self.name@,
            symbol: self.symbol@,
            uri: self.uri@,
            bump: self.bump,
        }
    }
}

impl OriginNft {
    /// Tag that every origin record's address is derived with: the ASCII
    /// bytes of `nft_origin`.
    pub const SEED: [u8; 10] = [110, 102, 116, 95, 111, 114, 105, 103, 105, 110];

    /// A record is well formed when its descriptive text fits the limits
    /// that token metadata imposes.
    pub open spec fn wf(self) -> bool {
        spec_text_fits(self.name@, self.symbol@, self.uri@)
    }

    /// Checks that `target` is the address at which the record of
    /// `token_id` must be stored, and gives it back with its bump seed.
    /// Any other `target`, and a token id for which no address can be
    /// derived, is `AddressMismatch`.
    pub fn validate_pda(target: [u8; 32], token_id: &[u8]) -> (checked: Result<
        ([u8; 32], u8),
        UniversalNftErrorCode,
    >)
        ensures
            match spec_origin_address(token_id@) {
                Some((address, bump)) if address == target@ => checked == Ok::<
                    ([u8; 32], u8),
                    UniversalNftErrorCode,
                >((target, bump)),
                _ => checked == Err::<([u8; 32], u8), UniversalNftErrorCode>(
                    UniversalNftErrorCode::AddressMismatch,
                ),
            },
    {
        check_pda(&target, origin_address(token_id))
    }
}

impl Clone for OriginNft {
    fn clone(&self) -> (copy: Self)
        ensures
            copy == *self,
    {
        OriginNft {
            token_id: self.token_id,
            slot: self.slot,
            mint: self.mint,
            name: self.name.clone(),
            symbol: self.symbol.clone(),
            uri: self.uri.clone(),
            bump: self.bump,
        }
    }
}

/// Whether descriptive text fits the limits that token metadata imposes: at
/// most 32 bytes of name, 10 of symbol and 200 of uri, in UTF-8.
pub open spec fn spec_text_fits(name: Seq<char>, symbol: Seq<char>, uri: Seq<char>) -> bool {
    &&& encode_utf8(name).len() <= 32
    &&& encode_utf8(symbol).len() <= 10
    &&& encode_utf8(uri).len() <= 200
}

/// Tests the length limits of a record's descriptive text.
pub fn text_fits(name: &String, symbol: &String, uri: &String) -> (fits: bool)
    ensures
        fits == spec_text_fits(name@, symbol@, uri@),
{
    name.as_str().as_bytes().len() <= max_name_length() && symbol.as_str().as_bytes().len()
        <= max_symbol_length() && uri.as_str().as_bytes().len() <= max_uri_length()
}

/// What a token id is the hash of: the asset's address, then the creation
/// slot and the nonce, each as eight little-endian bytes.
pub open spec fn spec_token_id_preimage(mint: Seq<u8>, slot: u64, nonce: u64) -> Seq<u8> {
    mint + spec_u64_to_le_bytes(slot) + spec_u64_to_le_bytes(nonce)
}

/// The token id of the asset `mint`, created at `slot` under `nonce`.
pub open spec fn spec_token_id(mint: Seq<u8>, slot: u64, nonce: u64) -> Seq<u8> {
    spec_sha256(spec_token_id_preimage(mint, slot, nonce))
}

/// The seeds an origin record's address is derived from.
pub open spec fn spec_origin_seeds(token_id: Seq<u8>) -> Seq<Seq<u8>> {
    seq![token_id, OriginNft::SEED@]
}

/// Where the record of `token_id` must be stored, with the bump seed of that
/// address; `None` if no such address exists.
pub open spec fn spec_origin_address(token_id: Seq<u8>) -> Option<(Seq<u8>, u8)> {
    spec_find_program_address(spec_origin_seeds(token_id), ID@)
}

/// Builds the bytes that are hashed into a token id.
pub fn token_id_preimage(mint: &[u8; 32], slot: u64, nonce: u64) -> (bytes: Vec<u8>)
    ensures
        bytes@ == spec_token_id_preimage(mint@, slot, nonce),
        bytes@.len() == 48,
{
    let mut bytes: Vec<u8> = Vec::new();
    append_bytes(&mut bytes, mint.as_slice());
    let slot_bytes = u64_to_le_bytes(slot);
    append_bytes(&mut bytes, slot_bytes.as_slice());
    let nonce_bytes = u64_to_le_bytes(nonce);
    append_bytes(&mut bytes, nonce_bytes.as_slice());
    bytes
}

/// Derives the 256-bit token id of an asset.
pub fn mint_to_token_id(mint: &[u8; 32], slot: u64, next_token_nonce: u64) -> (token_id: [u8; 32])
    ensures
        token_id@ == spec_token_id(mint@, slot, next_token_nonce),
{
    let preimage = token_id_preimage(mint, slot, next_token_nonce);
    sha256(preimage.as_slice())
}

/// The bytes that are hashed determine the asset, the slot and the nonce they
/// were built from.
pub proof fn lemma_token_id_preimage_injective(
    mint_a: Seq<u8>,
    slot_a: u64,
    nonce_a: u64,
    mint_b: Seq<u8>,
    slot_b: u64,
    nonce_b: u64,
)
    requires
        mint_a.len() == mint_b.len(),
        spec_token_id_preimage(mint_a, slot_a, nonce_a) == spec_token_id_preimage(
            mint_b,
            slot_b,
            nonce_b,
        ),
    ensures
        mint_a == mint_b,
        slot_a == slot_b,
        nonce_a == nonce_b,
{
    lemma_auto_spec_u64_to_from_le_bytes();
    let a = spec_token_id_preimage(mint_a, slot_a, nonce_a);
    let b = spec_token_id_preimage(mint_b, slot_b, nonce_b);
    let n = mint_a.len() as int;
    assert(a.subrange(0, n) =~= mint_a);
    assert(b.subrange(0, n) =~= mint_b);
    assert(a.subrange(n, n + 8) =~= spec_u64_to_le_bytes(slot_a));
    assert(b.subrange(n, n + 8) =~= spec_u64_to_le_bytes(slot_b));
    assert(a.subrange(n + 8, n + 16) =~= spec_u64_to_le_bytes(nonce_a));
    assert(b.subrange(n + 8, n + 16) =~= spec_u64_to_le_bytes(nonce_b));
}

/// Uniqueness of token ids rests on SHA-256 alone: if two triples that differ
/// in asset, slot or nonce had the same token id, they would be hashed from
/// different bytes, and those bytes would be a collision of SHA-256.
pub proof fn lemma_token_id_collision_is_hash_collision(
    mint_a: Seq<u8>,
    slot_a: u64,
    nonce_a: u64,
    mint_b: Seq<u8>,
    slot_b: u64,
    nonce_b: u64,
)
    requires
        mint_a.len() == mint_b.len(),
        mint_a != mint_b || slot_a != slot_b || nonce_a != nonce_b,
        spec_token_id(mint_a, slot_a, nonce_a) == spec_token_id(mint_b, slot_b, nonce_b),
    ensures
        spec_token_id_preimage(mint_a, slot_a, nonce_a) != spec_token_id_preimage(
            mint_b,
            slot_b,
            nonce_b,
        ),
        spec_sha256(spec_token_id_preimage(mint_a, slot_a, nonce_a)) == spec_sha256(
            spec_token_id_preimage(mint_b, slot_b, nonce_b),
        ),
{
    if spec_token_id_preimage(mint_a, slot_a, nonce_a) == spec_token_id_preimage(
        mint_b,
        slot_b,
        nonce_b,
    ) {
        lemma_token_id_preimage_injective(mint_a, slot_a, nonce_a, mint_b, slot_b, nonce_b);
    }
}

/// The address derived for `token_id`, if there is one.
pub fn origin_address(token_id: &[u8]) -> (derived: Option<([u8; 32], u8)>)
    ensures
        match derived {
            Some((address, bump)) => spec_origin_address(token_id@) == Some((address@, bump)),
            None => spec_origin_address(token_id@) is None,
        },
{
    let seeds: [&[u8]; 2] = [token_id, OriginNft::SEED.as_slice()];
    proof {
        assert(seeds@.map_values(|s: &[u8]| s@) =~= spec_origin_seeds(token_id@));
    }
    try_find_program_address(seeds.as_slice(), &ID)
}

/// Holds a claimed storage location against the derived one.
pub fn check_pda(target: &[u8; 32], derived: Option<([u8; 32], u8)>) -> (checked: Result<
    ([u8; 32], u8),
    UniversalNftErrorCode,
>)
    ensures
        match derived {
            Some((address, bump)) if address@ == target@ => checked == Ok::<
                ([u8; 32], u8),
                UniversalNftErrorCode,
            >((*target, bump)),
            _ => checked == Err::<([u8; 32], u8), UniversalNftErrorCode>(
                UniversalNftErrorCode::AddressMismatch,
            ),
        },
{
    match derived {
        Some((address, bump)) => {
            if bytes_eq(address.as_slice(), target.as_slice()) {
                assert(address =~= *target);
                Ok((address, bump))
            } else {
                Err(UniversalNftErrorCode::AddressMismatch)
            }
        },
        None => Err(UniversalNftErrorCode::AddressMismatch),
    }
}

} // verus!
