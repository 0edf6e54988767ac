//! Sending an asset out: the message for the destination chain and the
//! deposit that carries it to the gateway.

use crate::bytes::bytes_eq;
use crate::error::UniversalNftErrorCode;
use crate::instructions::requests::GatewayDeposit;
use crate::state::config::ProgramConfig;
use crate::state::cross_chain_message::{
    lemma_from_bytes_to_bytes, CrossChainFunction, CrossChainMessage,
};
use crate::state::origin_nft::{OriginNft, OriginNftView};
use crate::state::origin_registry::{spec_get, spec_record_view, OriginRegistry};
use vstd::prelude::*;

verus! {

/// What sending out works on.
#[derive(Clone, Debug, PartialEq, Eq)]
pub struct TransferNft {
    /// The party that sends the asset and signs for it.
    pub sender: [u8; 32],
    /// The asset.
    pub mint: [u8; 32],
    /// The sender's holding of the asset.
    pub sender_ata: [u8; 32],
    /// Token id of the asset's origin record.
    pub token_id: [u8; 32],
    pub registry: OriginRegistry,
    pub config: ProgramConfig,
    /// The gateway program that is to carry the message.
    pub gateway_program: [u8; 32],
}

/// A gateway deposit as plain data.
pub ghost struct GatewayDepositView {
    pub amount: u64,
    pub receiver: Seq<u8>,
    pub message: Seq<u8>,
}

impl View for GatewayDeposit {
    type V = GatewayDepositView;

    open spec fn view(&self) -> GatewayDepositView {
        GatewayDepositView {
            amount: self.amount,
            receiver: self.receiver@,
            message: self.message@,
        }
    }
}

/// A send's outcome with the deposit taken as plain data.
pub open spec fn spec_deposit_view(outcome: Result<GatewayDeposit, UniversalNftErrorCode>)
    -> Result<GatewayDepositView, UniversalNftErrorCode> {
    match outcome {
        Ok(deposit) => Ok(deposit@),
        Err(e) => Err(e),
    }
}

/// The message that announces the transfer of the asset to `recipient` on
/// chain `dest_chain_id`.
pub open spec fn spec_outbound(accounts: TransferNft, dest_chain_id: u64, recipient: [u8; 20])
    -> CrossChainMessage {
    CrossChainMessage {
        mint: accounts.mint,
        token_id: accounts.token_id,
        sender: accounts.sender,
        recipient,
        dest_chain_id,
        fun: CrossChainFunction::TransferNft,
    }
}

/// Sending out, given the outcome of looking up the origin record: the
/// gateway must be the trusted one (`InvalidGateway`); a failed lookup fails
/// the send; a record of another token id or another asset is
/// `InvalidOriginRecord`; otherwise one unit is deposited with the encoded
/// message.
pub open spec fn spec_send(
    accounts: TransferNft,
    dest_chain_id: u64,
    recipient: [u8; 20],
    origin: Result<OriginNftView, UniversalNftErrorCode>,
) -> Result<GatewayDepositView, UniversalNftErrorCode> {
    if accounts.gateway_program@ != accounts.config.gateway_program@ {
        Err(UniversalNftErrorCode::InvalidGateway)
    } else {
        match origin {
            Err(e) => Err(e),
            Ok(record) => if record.token_id != accounts.token_id@ || record.mint
                != accounts.mint@ {
                Err(UniversalNftErrorCode::InvalidOriginRecord)
            } else {
                Ok(
                    GatewayDepositView {
                        amount: 1,
                        receiver: recipient@,
                        message: spec_outbound(accounts, dest_chain_id, recipient).spec_to_bytes(),
                    },
                )
            },
        }
    }
}

impl TransferNft {
    /// Sends the asset out: looks up its origin record and hands the gateway
    /// the message for the destination chain. The bytes handed over decode
    /// to exactly that message. Nothing that the send works on is changed.
    pub fn handler(&mut self, dest_chain_id: u64, recipient: [u8; 20]) -> (outcome: Result<
        GatewayDeposit,
        UniversalNftErrorCode,
    >)
        requires
            old(self).registry.wf(),
        ensures
            *final(self) == *old(self),
            spec_deposit_view(outcome) == spec_send(
                *old(self),
                dest_chain_id,
                recipient,
                spec_get(old(self).registry@, old(self).token_id@, old(self).mint@),
            ),
            outcome matches Ok(deposit) ==> CrossChainMessage::spec_from_bytes(deposit.message@)
                == Ok::<CrossChainMessage, UniversalNftErrorCode>(
                spec_outbound(*old(self), dest_chain_id, recipient),
            ),
    {
        let origin = self.registry.get(&self.token_id, &self.mint);
        self.send(dest_chain_id, recipient, origin)
    }

    /// Builds the deposit, given the outcome of looking up the origin record
    /// of `token_id` for `mint`.
    pub fn send(
        &self,
        dest_chain_id: u64,
        recipient: [u8; 20],
        origin: Result<OriginNft, UniversalNftErrorCode>,
    ) -> (outcome: Result<GatewayDeposit, UniversalNftErrorCode>)
        ensures
            spec_deposit_view(outcome) == spec_send(
                *self,
                dest_chain_id,
                recipient,
                spec_record_view(origin),
            ),
            outcome matches Ok(deposit) ==> CrossChainMessage::spec_from_bytes(deposit.message@)
                == Ok::<CrossChainMessage, UniversalNftErrorCode>(
                spec_outbound(*self, dest_chain_id, recipient),
            ),
    {
        if !bytes_eq(self.gateway_program.as_slice(), self.config.gateway_program.as_slice()) {
            return Err(UniversalNftErrorCode::InvalidGateway);
        }
        let record = match origin {
            Ok(record) => record,
            Err(e) => {
                return Err(e);
            },
        };
        if !bytes_eq(record.token_id.as_slice(), self.token_id.as_slice()) || !bytes_eq(
            record.mint.as_slice(),
            self.mint.as_slice(),
        ) {
            return Err(UniversalNftErrorCode::InvalidOriginRecord);
        }
        let message = CrossChainMessage {
            mint: record.mint,
            token_id: record.token_id,
            sender: self.sender,
            recipient,
            dest_chain_id,
            fun: CrossChainFunction::TransferNft,
        };
        proof {
            assert(message.mint =~= self.mint);
            assert(message.token_id =~= self.token_id);
            lemma_from_bytes_to_bytes(message);
        }
        Ok(GatewayDeposit { amount: 1, receiver: recipient, message: message.to_bytes() })
    }
}

} // verus!
