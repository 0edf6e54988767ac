//! The message that travels between ledgers, and its wire format:
//!
//! `mint[32] | token_id[32] | sender[32] | recipient[20] | dest_chain_id[8, LE] | tag[1]`
//!
//! 125 bytes in all. Decoding accepts exactly the byte strings that encoding
//! produces.

use crate::bytes::{append_bytes, read_array_20, read_array_32};
use crate::constants::MESSAGE_LEN;
use crate::error::UniversalNftErrorCode;
use vstd::bytes::{
    lemma_auto_spec_u64_to_from_le_bytes, spec_u64_to_le_bytes, u64_from_le_bytes,
    u64_to_le_bytes,
};
use vstd::prelude::*;
use vstd::slice::slice_subrange;

verus! {

/// What the receiving side is asked to do with the asset.
#[derive(Clone, Copy, Debug, PartialEq, Eq)]
pub enum CrossChainFunction {
    /// The asset leaves this ledger.
    TransferNft,
    /// The asset arrives on this ledger.
    ReceiveNft,
}

#[derive(Clone, Copy, Debug, PartialEq, Eq)]
pub struct CrossChainMessage {
    /// The asset's address on its home ledger.
    pub mint: [u8; 32],
    pub token_id: [u8; 32],
    pub sender: [u8; 32],
    /// Address on the foreign chain.
    pub recipient: [u8; 20],
    pub dest_chain_id: u64,
    pub fun: CrossChainFunction,
}

impl CrossChainFunction {
    /// The byte that stands for the variant on the wire.
    pub open spec fn spec_tag(self) -> u8 {
        match self {
            CrossChainFunction::TransferNft => 0,
            CrossChainFunction::ReceiveNft => 1,
        }
    }

    pub fn tag(&self) -> (t: u8)
        ensures
            t == self.spec_tag(),
    {
        match self {
            CrossChainFunction::TransferNft => 0,
            CrossChainFunction::ReceiveNft => 1,
        }
    }
}

impl CrossChainMessage {
    /// The encoding: the fields in declared order, the integer in little
    /// endian, the tag last.
    pub open spec fn spec_to_bytes(self) -> Seq<u8> {
        self.mint@ + self.token_id@ + self.sender@ + self.recipient@ + spec_u64_to_le_bytes(
            self.dest_chain_id,
        ) + seq![self.fun.spec_tag()]
    }

    /// The message that `data` encodes. Encoding is injective, so there is at
    /// most one; without one the bytes are malformed.
    pub open spec fn spec_from_bytes(data: Seq<u8>) -> Result<
        CrossChainMessage,
        UniversalNftErrorCode,
    > {
        if exists|m: CrossChainMessage| #[trigger] m.spec_to_bytes() == data {
            Ok(choose|m: CrossChainMessage| #[trigger] m.spec_to_bytes() == data)
        } else {
            Err(UniversalNftErrorCode::MalformedMessage)
        }
    }

    pub fn to_bytes(&self) -> (bytes: Vec<u8>)
        ensures
            bytes@ == self.spec_to_bytes(),
            bytes@.len() == MESSAGE_LEN,
    {
        let mut bytes: Vec<u8> = Vec::new();
        append_bytes(&mut bytes, self.mint.as_slice());
        append_bytes(&mut bytes, self.token_id.as_slice());
        append_bytes(&mut bytes, self.sender.as_slice());
        append_bytes(&mut bytes, self.recipient.as_slice());
        let chain = u64_to_le_bytes(self.dest_chain_id);
        append_bytes(&mut bytes, chain.as_slice());
        bytes.push(self.fun.tag());
        proof {
            lemma_to_bytes_layout(*self);
            assert(bytes@ =~= self.spec_to_bytes());
        }
        bytes
    }

    /// Decodes a message. Succeeds exactly on the 125-byte strings whose last
    /// byte is a known tag; every other input is `MalformedMessage`.
    pub fn from_bytes(data: &[u8]) -> (decoded: Result<CrossChainMessage, UniversalNftErrorCode>)
        ensures
            decoded == Self::spec_from_bytes(data@),
            decoded is Ok <==> data@.len() == MESSAGE_LEN && data@[MESSAGE_LEN - 1] <= 1,
            decoded matches Ok(m) ==> m.spec_to_bytes() == data@,
            decoded matches Err(e) ==> e == UniversalNftErrorCode::MalformedMessage,
    {
        if data.len() != MESSAGE_LEN {
            proof {
                assert forall|m: CrossChainMessage| #[trigger] m.spec_to_bytes() != data@ by {
                    lemma_to_bytes_layout(m);
                }
            }
            return Err(UniversalNftErrorCode::MalformedMessage);
        }
        let tag: u8 = data[124];
        if tag > 1 {
            proof {
                assert forall|m: CrossChainMessage| #[trigger] m.spec_to_bytes() != data@ by {
                    lemma_to_bytes_layout(m);
                }
            }
            return Err(UniversalNftErrorCode::MalformedMessage);
        }
        let fun = if tag == 0 {
            CrossChainFunction::TransferNft
        } else {
            CrossChainFunction::ReceiveNft
        };
        let message = CrossChainMessage {
            mint: read_array_32(data, 0),
            token_id: read_array_32(data, 32),
            sender: read_array_32(data, 64),
            recipient: read_array_20(data, 96),
            dest_chain_id: u64_from_le_bytes(slice_subrange(data, 116, 124)),
            fun,
        };
        proof {
            lemma_auto_spec_u64_to_from_le_bytes();
            lemma_to_bytes_layout(message);
            assert(message.spec_to_bytes() =~= data@);
            lemma_from_bytes_to_bytes(message);
        }
        Ok(message)
    }
}

/// Where each field lies in the encoding.
pub proof fn lemma_to_bytes_layout(m: CrossChainMessage)
    ensures
        m.spec_to_bytes().len() == MESSAGE_LEN,
        m.spec_to_bytes().subrange(0, 32) == m.mint@,
        m.spec_to_bytes().subrange(32, 64) == m.token_id@,
        m.spec_to_bytes().subrange(64, 96) == m.sender@,
        m.spec_to_bytes().subrange(96, 116) == m.recipient@,
        m.spec_to_bytes().subrange(116, 124) == spec_u64_to_le_bytes(m.dest_chain_id),
        m.spec_to_bytes()[124] == m.fun.spec_tag(),
        m.spec_to_bytes()[124] <= 1,
{
    lemma_auto_spec_u64_to_from_le_bytes();
    let b = m.spec_to_bytes();
    assert(b.subrange(0, 32) =~= m.mint@);
    assert(b.subrange(32, 64) =~= m.token_id@);
    assert(b.subrange(64, 96) =~= m.sender@);
    assert(b.subrange(96, 116) =~= m.recipient@);
    assert(b.subrange(116, 124) =~= spec_u64_to_le_bytes(m.dest_chain_id));
}

/// Two messages with the same encoding are the same message.
pub proof fn lemma_to_bytes_injective(a: CrossChainMessage, b: CrossChainMessage)
    requires
        a.spec_to_bytes() == b.spec_to_bytes(),
    ensures
        a == b,
{
    lemma_to_bytes_layout(a);
    lemma_to_bytes_layout(b);
    lemma_auto_spec_u64_to_from_le_bytes();
    assert(a.mint =~= b.mint);
    assert(a.token_id =~= b.token_id);
    assert(a.sender =~= b.sender);
    assert(a.recipient =~= b.recipient);
    assert(spec_u64_to_le_bytes(a.dest_chain_id) == spec_u64_to_le_bytes(b.dest_chain_id));
    assert(a.dest_chain_id == b.dest_chain_id);
    assert(a.fun.spec_tag() == b.fun.spec_tag());
    assert(a.fun == b.fun);
}

/// Round trip: decoding the encoding of any message gives that message back.
pub proof fn lemma_from_bytes_to_bytes(m: CrossChainMessage)
    ensures
        CrossChainMessage::spec_from_bytes(m.spec_to_bytes()) == Ok::<
            CrossChainMessage,
            UniversalNftErrorCode,
        >(m),
{
    let data = m.spec_to_bytes();
    let found = choose|x: CrossChainMessage| #[trigger] x.spec_to_bytes() == data;
    lemma_to_bytes_injective(found, m);
}

/// Every byte string that is not 125 bytes long, or whose last byte is not a
/// known tag, is rejected as malformed.
pub proof fn lemma_from_bytes_rejects(data: Seq<u8>)
    requires
        data.len() != MESSAGE_LEN || data[MESSAGE_LEN - 1] > 1,
    ensures
        CrossChainMessage::spec_from_bytes(data) == Err::<
            CrossChainMessage,
            UniversalNftErrorCode,
        >(UniversalNftErrorCode::MalformedMessage),
{
    assert forall|m: CrossChainMessage| #[trigger] m.spec_to_bytes() != data by {
        lemma_to_bytes_layout(m);
    }
}

} // verus!
