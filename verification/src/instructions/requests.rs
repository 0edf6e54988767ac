//! What an entry point asks of the programs around the bridge.

use vstd::prelude::*;

verus! {

/// Mint `amount` units of `mint` into the holding `to`.
#[derive(Clone, Copy, Debug, PartialEq, Eq)]
pub struct TokenMint {
    pub mint: [u8; 32],
    pub to: [u8; 32],
    pub authority: [u8; 32],
    pub amount: u64,
}

/// Burn `amount` units of `mint` out of the holding `from`.
#[derive(Clone, Copy, Debug, PartialEq, Eq)]
pub struct TokenBurn {
    pub mint: [u8; 32],
    pub from: [u8; 32],
    pub authority: [u8; 32],
    pub amount: u64,
}

/// Attach descriptive metadata to `mint` and close its supply with a master
/// edition. The request has no place for creators, a collection or uses:
/// a bridged asset has none.
#[derive(Clone, Debug, PartialEq, Eq)]
pub struct MetadataAttachment {
    pub mint: [u8; 32],
    pub authority: [u8; 32],
    pub name: String,
    pub symbol: String,
    pub uri: String,
    pub seller_fee_basis_points: u16,
    pub is_mutable: bool,
    pub update_authority_is_signer: bool,
    /// How many prints the master edition allows.
    pub max_supply: Option<u64>,
}

/// A metadata request as plain data.
pub ghost struct MetadataAttachmentView {
    pub mint: Seq<u8>,
    pub authority: Seq<u8>,
    pub name: Seq<char>,
    pub symbol: Seq<char>,
    pub uri: Seq<char>,
    pub seller_fee_basis_points: u16,
    pub is_mutable: bool,
    pub update_authority_is_signer: bool,
    pub max_supply: Option<u64>,
}

impl View for MetadataAttachment {
    type V = MetadataAttachmentView;

    open spec fn view(&self) -> MetadataAttachmentView {
        MetadataAttachmentView {
            mint: self.mint@,
            authority: self.authority@,
            name: self.name@,
            symbol: self.symbol@,
            uri: self.uri@,
            seller_fee_basis_points: self.seller_fee_basis_points,
            is_mutable: self.is_mutable,
            update_authority_is_signer: self.update_authority_is_signer,
            max_supply: self.max_supply,
        }
    }
}

/// Deposit `amount` with the gateway and have it carry `message` to
/// `receiver` on the destination chain. No revert options.
#[derive(Clone, Debug, PartialEq, Eq)]
pub struct GatewayDeposit {
    pub amount: u64,
    pub receiver: [u8; 20],
    pub message: Vec<u8>,
}

/// The one unit that a non-fungible asset consists of.
pub open spec fn spec_mint_one(mint: [u8; 32], to: [u8; 32], authority: [u8; 32]) -> TokenMint {
    TokenMint { mint, to, authority, amount: 1 }
}

pub open spec fn spec_burn_one(mint: [u8; 32], from: [u8; 32], authority: [u8; 32]) -> TokenBurn {
    TokenBurn { mint, from, authority, amount: 1 }
}

/// The metadata of a bridged asset: the given text, no seller fee,
/// immutable, signed for by the update authority, and a master edition
/// without prints.
pub open spec fn spec_metadata(
    mint: Seq<u8>,
    authority: Seq<u8>,
    name: Seq<char>,
    symbol: Seq<char>,
    uri: Seq<char>,
) -> MetadataAttachmentView {
    MetadataAttachmentView {
        mint,
        authority,
        name,
        symbol,
        uri,
        seller_fee_basis_points: 0,
        is_mutable: false,
        update_authority_is_signer: true,
        max_supply: Some(0),
    }
}

/// Builds the request for the one unit of `mint`.
pub fn mint_one(mint: [u8; 32], to: [u8; 32], authority: [u8; 32]) -> (request: TokenMint)
    ensures
        request == spec_mint_one(mint, to, authority),
{
    TokenMint { mint, to, authority, amount: 1 }
}

/// Builds the request to burn the one unit of `mint`.
pub fn burn_one(mint: [u8; 32], from: [u8; 32], authority: [u8; 32]) -> (request: TokenBurn)
    ensures
        request == spec_burn_one(mint, from, authority),
{
    TokenBurn { mint, from, authority, amount: 1 }
}

/// Builds the metadata request for `mint`.
pub fn metadata_for(
    mint: [u8; 32],
    authority: [u8; 32],
    name: &String,
    symbol: &String,
    uri: &String,
) -> (request: MetadataAttachment)
    ensures
        request@ == spec_metadata(mint@, authority@, name@, symbol@, uri@),
{
    MetadataAttachment {
        mint,
        authority,
        name: name.clone(),
        symbol: symbol.clone(),
        uri: uri.clone(),
        seller_fee_basis_points: 0,
        is_mutable: false,
        update_authority_is_signer: true,
        max_supply: Some(0),
    }
}

} // verus!
