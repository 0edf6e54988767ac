//! Handling a message that the gateway delivers.

use crate::bytes::bytes_eq;
use crate::error::UniversalNftErrorCode;
use crate::instructions::requests::{
    burn_one, metadata_for, mint_one, spec_burn_one, spec_metadata, spec_mint_one,
    MetadataAttachment, MetadataAttachmentView, TokenBurn, TokenMint,
};
use crate::state::config::ProgramConfig;
use crate::state::cross_chain_message::{
    lemma_from_bytes_to_bytes, CrossChainFunction, CrossChainMessage,
};
use crate::state::origin_nft::{OriginNft, OriginNftView};
use crate::state::origin_registry::{spec_get, spec_record_view, OriginRegistry};
use vstd::prelude::*;

verus! {

/// What an inbound call works on.
#[derive(Clone, Debug, PartialEq, Eq)]
pub struct OnCall {
    /// The party that invoked the call and signs for its holding.
    pub payer: [u8; 32],
    pub config: ProgramConfig,
    /// The asset at hand.
    pub mint: [u8; 32],
    /// The payer's holding of the asset.
    pub token_account: [u8; 32],
    pub registry: OriginRegistry,
    /// The gateway program that delivered the message.
    pub gateway_program: [u8; 32],
}

/// What a validated message asks for.
#[derive(Clone, Debug, PartialEq, Eq)]
pub enum InboundAction {
    /// The asset leaves: burn its unit.
    Burn(TokenBurn),
    /// The asset arrives: mint its unit and attach the record's metadata.
    Receive { mint_to: TokenMint, metadata: MetadataAttachment },
}

/// An inbound action as plain data.
pub ghost enum InboundActionView {
    Burn(TokenBurn),
    Receive { mint_to: TokenMint, metadata: MetadataAttachmentView },
}

impl View for InboundAction {
    type V = InboundActionView;

    open spec fn view(&self) -> InboundActionView {
        match *self {
            InboundAction::Burn(burn) => InboundActionView::Burn(burn),
            InboundAction::Receive { mint_to, metadata } => InboundActionView::Receive {
                mint_to,
                metadata: metadata@,
            },
        }
    }
}

/// An inbound outcome with the action taken as plain data.
pub open spec fn spec_action_view(outcome: Result<InboundAction, UniversalNftErrorCode>) -> Result<
    InboundActionView,
    UniversalNftErrorCode,
> {
    match outcome {
        Ok(action) => Ok(action@),
        Err(e) => Err(e),
    }
}

/// Validation of raw bytes, in this order: the delivering gateway must be the
/// trusted one (`InvalidGateway`); the bytes must decode (`InvalidMessage`);
/// the message must speak of the asset at hand (`AssetMismatch`); and a
/// transfer must come from the invoking party (`UnauthorizedSender`).
pub open spec fn spec_validate(accounts: OnCall, data: Seq<u8>) -> Result<
    CrossChainMessage,
    UniversalNftErrorCode,
> {
    if accounts.gateway_program@ != accounts.config.gateway_program@ {
        Err(UniversalNftErrorCode::InvalidGateway)
    } else {
        match CrossChainMessage::spec_from_bytes(data) {
            Err(_) => Err(UniversalNftErrorCode::InvalidMessage),
            Ok(message) => {
                if message.mint@ != accounts.mint@ {
                    Err(UniversalNftErrorCode::AssetMismatch)
                } else if message.fun == CrossChainFunction::TransferNft && message.sender@
                    != accounts.payer@ {
                    Err(UniversalNftErrorCode::UnauthorizedSender)
                } else {
                    Ok(message)
                }
            },
        }
    }
}

/// What a validated message leads to, given the outcome of looking up its
/// origin record: a failed lookup fails the call; a record of another token
/// id or another asset is `InvalidOriginRecord`; a transfer burns the one
/// unit from the payer's holding; a receipt mints one unit into it and
/// attaches the record's name, symbol and uri.
pub open spec fn spec_act(
    accounts: OnCall,
    message: CrossChainMessage,
    origin: Result<OriginNftView, UniversalNftErrorCode>,
) -> Result<InboundActionView, UniversalNftErrorCode> {
    match origin {
        Err(e) => Err(e),
        Ok(record) => if record.token_id != message.token_id@ || record.mint != accounts.mint@ {
            Err(UniversalNftErrorCode::InvalidOriginRecord)
        } else {
            match message.fun {
                CrossChainFunction::TransferNft => Ok(
                    InboundActionView::Burn(
                        spec_burn_one(accounts.mint, accounts.token_account, accounts.payer),
                    ),
                ),
                CrossChainFunction::ReceiveNft => Ok(
                    InboundActionView::Receive {
                        mint_to: spec_mint_one(
                            accounts.mint,
                            accounts.token_account,
                            accounts.payer,
                        ),
                        metadata: spec_metadata(
                            accounts.mint@,
                            accounts.payer@,
                            record.name,
                            record.symbol,
                            record.uri,
                        ),
                    },
                ),
            }
        },
    }
}

/// The whole inbound call: validation, then the lookup of the message's
/// origin record in the registry, then the action.
pub open spec fn spec_on_call(accounts: OnCall, data: Seq<u8>) -> Result<
    InboundActionView,
    UniversalNftErrorCode,
> {
    match spec_validate(accounts, data) {
        Err(e) => Err(e),
        Ok(message) => spec_act(
            accounts,
            message,
            spec_get(accounts.registry@, message.token_id@, message.mint@),
        ),
    }
}

/// A transfer that does not come from the invoking party is refused as
/// `UnauthorizedSender`, whatever the registry holds: no burn is asked for.
pub proof fn lemma_transfer_of_another_sender_is_refused(
    accounts: OnCall,
    message: CrossChainMessage,
)
    requires
        accounts.gateway_program@ == accounts.config.gateway_program@,
        message.mint@ == accounts.mint@,
        message.fun == CrossChainFunction::TransferNft,
        message.sender@ != accounts.payer@,
    ensures
        spec_on_call(accounts, message.spec_to_bytes()) == Err::<
            InboundActionView,
            UniversalNftErrorCode,
        >(UniversalNftErrorCode::UnauthorizedSender),
{
    lemma_from_bytes_to_bytes(message);
}

/// A receipt for the asset at hand, delivered by the trusted gateway, whose
/// origin record is on file: exactly one unit is minted into the payer's
/// holding, and the metadata carries the record's name, symbol and uri.
pub proof fn lemma_receipt_mints_one_with_the_records_text(
    accounts: OnCall,
    message: CrossChainMessage,
    record: OriginNftView,
)
    requires
        accounts.gateway_program@ == accounts.config.gateway_program@,
        message.mint@ == accounts.mint@,
        message.fun == CrossChainFunction::ReceiveNft,
        spec_get(accounts.registry@, message.token_id@, message.mint@) == Ok::<
            OriginNftView,
            UniversalNftErrorCode,
        >(record),
    ensures
        spec_on_call(accounts, message.spec_to_bytes()) == Ok::<
            InboundActionView,
            UniversalNftErrorCode,
        >(
            InboundActionView::Receive {
                mint_to: spec_mint_one(accounts.mint, accounts.token_account, accounts.payer),
                metadata: spec_metadata(
                    accounts.mint@,
                    accounts.payer@,
                    record.name,
                    record.symbol,
                    record.uri,
                ),
            },
        ),
        spec_mint_one(accounts.mint, accounts.token_account, accounts.payer).amount == 1,
{
    lemma_from_bytes_to_bytes(message);
}

impl OnCall {
    /// Handles a message from the gateway: validates it, looks up the origin
    /// record of its token id and asset, and says what is to be done.
    /// Nothing that the call works on is changed.
    pub fn handler(&mut self, message: &[u8]) -> (outcome: Result<
        InboundAction,
        UniversalNftErrorCode,
    >)
        requires
            old(self).registry.wf(),
        ensures
            *final(self) == *old(self),
            spec_action_view(outcome) == spec_on_call(*old(self), message@),
    {
        let validated = match self.validate(message) {
            Ok(validated) => validated,
            Err(e) => {
                return Err(e);
            },
        };
        let origin = self.registry.get(&validated.token_id, &validated.mint);
        self.act(&validated, origin)
    }

    /// Decides whether raw bytes from the gateway are to be acted on.
    pub fn validate(&self, message: &[u8]) -> (validated: Result<
        CrossChainMessage,
        UniversalNftErrorCode,
    >)
        ensures
            validated == spec_validate(*self, message@),
    {
        if !bytes_eq(self.gateway_program.as_slice(), self.config.gateway_program.as_slice()) {
            return Err(UniversalNftErrorCode::InvalidGateway);
        }
        let decoded = match CrossChainMessage::from_bytes(message) {
            Ok(decoded) => decoded,
            Err(_) => {
                return Err(UniversalNftErrorCode::InvalidMessage);
            },
        };
        if !bytes_eq(decoded.mint.as_slice(), self.mint.as_slice()) {
            return Err(UniversalNftErrorCode::AssetMismatch);
        }
        match decoded.fun {
            CrossChainFunction::TransferNft => {
                if !bytes_eq(decoded.sender.as_slice(), self.payer.as_slice()) {
                    return Err(UniversalNftErrorCode::UnauthorizedSender);
                }
            },
            CrossChainFunction::ReceiveNft => {},
        }
        Ok(decoded)
    }

    /// Says what a validated message leads to, given the outcome of looking
    /// up its origin record.
    pub fn act(
        &self,
        message: &CrossChainMessage,
        origin: Result<OriginNft, UniversalNftErrorCode>,
    ) -> (outcome: Result<InboundAction, UniversalNftErrorCode>)
        ensures
            spec_action_view(outcome) == spec_act(*self, *message, spec_record_view(origin)),
    {
        let record = match origin {
            Ok(record) => record,
            Err(e) => {
                return Err(e);
            },
        };
        if !bytes_eq(record.token_id.as_slice(), message.token_id.as_slice()) || !bytes_eq(
            record.mint.as_slice(),
            self.mint.as_slice(),
        ) {
            return Err(UniversalNftErrorCode::InvalidOriginRecord);
        }
        match message.fun {
            CrossChainFunction::TransferNft => Ok(
                InboundAction::Burn(burn_one(self.mint, self.token_account, self.payer)),
            ),
            CrossChainFunction::ReceiveNft => Ok(
                InboundAction::Receive {
                    mint_to: mint_one(self.mint, self.token_account, self.payer),
                    metadata: metadata_for(
                        self.mint,
                        self.payer,
                        &record.name,
                        &record.symbol,
                        &record.uri,
                    ),
                },
            ),
        }
    }
}

} // verus!
