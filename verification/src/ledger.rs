//! What the bridge takes from the ledger's libraries: SHA-256, the search for
//! a program-derived address, and the length limits of token metadata. The
//! first two are computed by the Solana SDK; this module names their results
//! and states nothing else about them.

use anchor_lang::solana_program::hash::hash;
use anchor_lang::solana_program::pubkey::Pubkey;
use vstd::prelude::*;

verus! {

/// The SHA-256 digest of `data`, as the SDK computes it.
pub uninterp spec fn spec_sha256(data: Seq<u8>) -> Seq<u8>;

/// What the SDK's bump-seed search yields for `seeds` under `program_id`:
/// the derived address with its bump seed, or `None` when the seeds are not
/// admissible or no bump seed gives an address off the curve.
pub uninterp spec fn spec_find_program_address(seeds: Seq<Seq<u8>>, program_id: Seq<u8>) -> Option<
    (Seq<u8>, u8),
>;

/// Calls `solana_program::hash::hash`, which returns the SHA-256 hash of the
/// given bytes. Trusted: the digest is only named, not computed in the proof.
#[verifier::external_body]
pub(crate) fn sha256(data: &[u8]) -> (digest: [u8; 32])
    ensures
        digest@ == spec_sha256(data@),
{
    hash(data).to_bytes()
}

/// Calls `Pubkey::try_find_program_address`, which searches the bump seeds
/// from 255 downwards for the first address that is off the ed25519 curve.
/// It does not panic: inadmissible seeds and an exhausted search give `None`.
/// Trusted: the outcome is only named.
#[verifier::external_body]
pub(crate) fn try_find_program_address(seeds: &[&[u8]], program_id: &[u8; 32]) -> (found: Option<
    ([u8; 32], u8),
>)
    ensures
        match found {
            Some((address, bump)) => spec_find_program_address(
                seeds@.map_values(|s: &[u8]| s@),
                program_id@,
            ) == Some((address@, bump)),
            None => spec_find_program_address(seeds@.map_values(|s: &[u8]| s@), program_id@)
                is None,
        },
{
    match Pubkey::try_find_program_address(seeds, &Pubkey::new_from_array(*program_id)) {
        Some((address, bump)) => Some((address.to_bytes(), bump)),
        None => None,
    }
}

/// Reads `mpl_token_metadata::MAX_NAME_LENGTH`. Trusted: the constant is 32.
#[verifier::external_body]
pub(crate) fn max_name_length() -> (limit: usize)
    ensures
        limit == 32,
{
    mpl_token_metadata::MAX_NAME_LENGTH
}

/// Reads `mpl_token_metadata::MAX_SYMBOL_LENGTH`. Trusted: the constant is 10.
#[verifier::external_body]
pub(crate) fn max_symbol_length() -> (limit: usize)
    ensures
        limit == 10,
{
    mpl_token_metadata::MAX_SYMBOL_LENGTH
}

/// Reads `mpl_token_metadata::MAX_URI_LENGTH`. Trusted: the constant is 200.
#[verifier::external_body]
pub(crate) fn max_uri_length() -> (limit: usize)
    ensures
        limit == 200,
{
    mpl_token_metadata::MAX_URI_LENGTH
}

} // verus!
