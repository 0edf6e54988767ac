use solana_universal_nft::state::cross_chain_message::{CrossChainFunction, CrossChainMessage};
use solana_universal_nft::{UniversalNftErrorCode, MESSAGE_LEN};

fn sample(fun: CrossChainFunction) -> CrossChainMessage {
    let mut mint = [0u8; 32];
    let mut token_id = [0u8; 32];
    let mut sender = [0u8; 32];
    let mut recipient = [0u8; 20];
    for i in 0..32 {
        mint[i] = i as u8;
        token_id[i] = 100 + i as u8;
        sender[i] = 200 + i as u8;
    }
    for i in 0..20 {
        recipient[i] = 50 + i as u8;
    }
    CrossChainMessage { mint, token_id, sender, recipient, dest_chain_id: 0x0102030405060708, fun }
}

#[test]
fn message_length_is_125() {
    assert_eq!(MESSAGE_LEN, 125);
    assert_eq!(sample(CrossChainFunction::TransferNft).to_bytes().len(), 125);
}

#[test]
fn encoding_lays_the_fields_out_in_order() {
    let message = sample(CrossChainFunction::ReceiveNft);
    let bytes = message.to_bytes();
    assert_eq!(&bytes[0..32], &message.mint);
    assert_eq!(&bytes[32..64], &message.token_id);
    assert_eq!(&bytes[64..96], &message.sender);
    assert_eq!(&bytes[96..116], &message.recipient);
    assert_eq!(&bytes[116..124], &[8, 7, 6, 5, 4, 3, 2, 1]);
    assert_eq!(bytes[124], 1);
}

#[test]
fn tags_are_zero_and_one() {
    assert_eq!(CrossChainFunction::TransferNft.tag(), 0);
    assert_eq!(CrossChainFunction::ReceiveNft.tag(), 1);
    assert_eq!(sample(CrossChainFunction::TransferNft).to_bytes()[124], 0);
}

#[test]
fn encode_then_decode_gives_the_message_back() {
    for fun in [CrossChainFunction::TransferNft, CrossChainFunction::ReceiveNft] {
        let message = sample(fun);
        assert_eq!(CrossChainMessage::from_bytes(&message.to_bytes()), Ok(message));
    }
    let extreme = CrossChainMessage {
        mint: [255u8; 32],
        token_id: [0u8; 32],
        sender: [255u8; 32],
        recipient: [0u8; 20],
        dest_chain_id: u64::MAX,
        fun: CrossChainFunction::ReceiveNft,
    };
    assert_eq!(CrossChainMessage::from_bytes(&extreme.to_bytes()), Ok(extreme));
}

#[test]
fn decode_then_encode_gives_the_bytes_back() {
    let mut bytes = vec![0u8; 125];
    for i in 0..124 {
        bytes[i] = (i * 3 + 1) as u8;
    }
    bytes[124] = 1;
    let message = CrossChainMessage::from_bytes(&bytes).unwrap();
    assert_eq!(message.to_bytes(), bytes);
    assert_eq!(message.fun, CrossChainFunction::ReceiveNft);
    assert_eq!(message.dest_chain_id, u64::from_le_bytes(bytes[116..124].try_into().unwrap()));
}

#[test]
fn decode_rejects_every_shorter_input() {
    let bytes = sample(CrossChainFunction::TransferNft).to_bytes();
    for len in 0..125 {
        assert_eq!(
            CrossChainMessage::from_bytes(&bytes[..len]),
            Err(UniversalNftErrorCode::MalformedMessage),
            "length {}",
            len
        );
    }
}

#[test]
fn decode_rejects_trailing_bytes() {
    let mut bytes = sample(CrossChainFunction::TransferNft).to_bytes();
    bytes.push(0);
    assert_eq!(
        CrossChainMessage::from_bytes(&bytes),
        Err(UniversalNftErrorCode::MalformedMessage)
    );
}

#[test]
fn decode_rejects_every_unknown_tag() {
    let mut bytes = sample(CrossChainFunction::TransferNft).to_bytes();
    for tag in 2..=255u8 {
        bytes[124] = tag;
        assert_eq!(
            CrossChainMessage::from_bytes(&bytes),
            Err(UniversalNftErrorCode::MalformedMessage),
            "tag {}",
            tag
        );
    }
}

#[test]
fn decode_rejects_the_empty_input() {
    assert_eq!(CrossChainMessage::from_bytes(&[]), Err(UniversalNftErrorCode::MalformedMessage));
}
