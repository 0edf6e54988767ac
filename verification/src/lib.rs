//! Universal NFT bridge core: token identity, the origin registry, the
//! cross-chain message codec and the decisions of the bridge's entry points.

pub mod bytes;
pub mod constants;
pub mod error;
pub mod instructions;
pub mod ledger;
pub mod state;

pub use constants::{MAX_PASS_SLOT, MESSAGE_LEN};
pub use error::UniversalNftErrorCode;
pub use instructions::initialize::{Initialize, InitializeBumps};
pub use instructions::new_nft::{NewNft, NftIssue};
pub use instructions::on_call::{InboundAction, OnCall};
pub use instructions::requests::{GatewayDeposit, MetadataAttachment, TokenBurn, TokenMint};
pub use instructions::transfer_nft::TransferNft;
pub use state::config::ProgramConfig;
pub use state::cross_chain_message::{CrossChainFunction, CrossChainMessage};
pub use state::origin_nft::{mint_to_token_id, OriginNft};
pub use state::origin_registry::OriginRegistry;

use instructions::initialize::spec_initialize;
use instructions::new_nft::{spec_issue, spec_issue_view, spec_same_parties};
use state::origin_nft::{spec_origin_address, spec_text_fits, spec_token_id};
use vstd::prelude::*;

verus! {

/// Address of this program on the ledger; every derived address is relative
/// to it.
pub const ID: [u8; 32] = [
    135, 214, 179, 225, 19, 60, 96, 232, 137, 156, 159, 80, 227, 76, 177, 194,
    128, 156, 147, 162, 140, 245, 155, 123, 236, 4, 74, 91, 249, 149, 180, 51,
];

/// Entry point: creates the configuration singleton with the trusted
/// gateway, unless it exists.
pub fn initialize(
    accounts: &mut Initialize,
    bumps: &InitializeBumps,
    gateway_program: [u8; 32],
) -> (done: Result<(), UniversalNftErrorCode>)
    ensures
        (*final(accounts), done) == spec_initialize(*old(accounts), gateway_program, *bumps),
{
    accounts.handler(gateway_program, bumps)
}

/// Entry point: issues a new asset with the given descriptive text, claimed
/// to have been created at `slot`.
pub fn new_nft(
    accounts: &mut NewNft,
    slot: u64,
    name: String,
    symbol: String,
    uri: String,
) -> (issued: Result<NftIssue, UniversalNftErrorCode>)
    requires
        old(accounts).registry.wf(),
        old(accounts).config_account.next_token_nonce < u64::MAX,
        spec_text_fits(name@, symbol@, uri@),
    ensures
        final(accounts).registry.wf(),
        spec_same_parties(*final(accounts), *old(accounts)),
        (final(accounts).registry@, final(accounts).config_account, spec_issue_view(issued))
            == spec_issue(
            *old(accounts),
            slot,
            name@,
            symbol@,
            uri@,
            spec_token_id(old(accounts).mint@, slot, old(accounts).config_account.next_token_nonce),
            spec_origin_address(
                spec_token_id(
                    old(accounts).mint@,
                    slot,
                    old(accounts).config_account.next_token_nonce,
                ),
            ),
        ),
{
    accounts.handler(slot, name, symbol, uri)
}

} // verus!
