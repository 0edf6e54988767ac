use solana_universal_nft::state::origin_nft::{mint_to_token_id, origin_address};
use solana_universal_nft::{
    CrossChainFunction, CrossChainMessage, InboundAction, MetadataAttachment, OnCall, OriginNft,
    OriginRegistry, ProgramConfig, TokenBurn, TokenMint, UniversalNftErrorCode,
};

const PAYER: [u8; 32] = [1u8; 32];
const GATEWAY: [u8; 32] = [2u8; 32];
const MINT: [u8; 32] = [7u8; 32];
const HOLDING: [u8; 32] = [6u8; 32];

fn text(s: &str) -> String {
    s.to_string()
}

fn token_id() -> [u8; 32] {
    mint_to_token_id(&MINT, 100, 1)
}

fn stored() -> OriginNft {
    OriginNft {
        token_id: token_id(),
        slot: 100,
        mint: MINT,
        name: text("Universal"),
        symbol: text("UNFT"),
        uri: text("https://example.org/1.json"),
        bump: origin_address(&token_id()).unwrap().1,
    }
}

fn accounts() -> OnCall {
    let mut registry = OriginRegistry::new();
    assert!(registry.load(origin_address(&token_id()).unwrap().0, stored()));
    OnCall {
        payer: PAYER,
        config: ProgramConfig {
            authority: [3u8; 32],
            gateway_program: GATEWAY,
            next_token_nonce: 2,
            bump: 255,
        },
        mint: MINT,
        token_account: HOLDING,
        registry,
        gateway_program: GATEWAY,
    }
}

fn message(fun: CrossChainFunction) -> CrossChainMessage {
    CrossChainMessage {
        mint: MINT,
        token_id: token_id(),
        sender: PAYER,
        recipient: [5u8; 20],
        dest_chain_id: 7001,
        fun,
    }
}

#[test]
fn receive_mints_one_unit_with_the_records_metadata() {
    let mut accounts = accounts();
    let before = accounts.clone();
    let outcome = accounts.handler(&message(CrossChainFunction::ReceiveNft).to_bytes());
    assert_eq!(
        outcome,
        Ok(InboundAction::Receive {
            mint_to: TokenMint { mint: MINT, to: HOLDING, authority: PAYER, amount: 1 },
            metadata: MetadataAttachment {
                mint: MINT,
                authority: PAYER,
                name: text("Universal"),
                symbol: text("UNFT"),
                uri: text("https://example.org/1.json"),
                seller_fee_basis_points: 0,
                is_mutable: false,
                update_authority_is_signer: true,
                max_supply: Some(0),
            },
        })
    );
    assert_eq!(accounts, before);
}

#[test]
fn receive_does_not_ask_who_sent() {
    let mut accounts = accounts();
    let mut inbound = message(CrossChainFunction::ReceiveNft);
    inbound.sender = [9u8; 32];
    assert!(matches!(accounts.handler(&inbound.to_bytes()), Ok(InboundAction::Receive { .. })));
}

#[test]
fn transfer_burns_one_unit_from_the_payers_holding() {
    let mut accounts = accounts();
    let before = accounts.clone();
    let outcome = accounts.handler(&message(CrossChainFunction::TransferNft).to_bytes());
    assert_eq!(
        outcome,
        Ok(InboundAction::Burn(TokenBurn {
            mint: MINT,
            from: HOLDING,
            authority: PAYER,
            amount: 1
        }))
    );
    assert_eq!(accounts, before);
}

#[test]
fn transfer_from_another_sender_is_unauthorized_and_burns_nothing() {
    let mut accounts = accounts();
    let mut inbound = message(CrossChainFunction::TransferNft);
    inbound.sender = [9u8; 32];
    let outcome = accounts.handler(&inbound.to_bytes());
    assert_eq!(outcome, Err(UniversalNftErrorCode::UnauthorizedSender));
    assert!(!matches!(outcome, Ok(InboundAction::Burn(_))));
}

#[test]
fn an_untrusted_gateway_is_rejected_before_anything_is_read() {
    let mut accounts = accounts();
    accounts.gateway_program = [9u8; 32];
    assert_eq!(
        accounts.handler(&message(CrossChainFunction::ReceiveNft).to_bytes()),
        Err(UniversalNftErrorCode::InvalidGateway)
    );
    assert_eq!(accounts.handler(&[1, 2, 3]), Err(UniversalNftErrorCode::InvalidGateway));
}

#[test]
fn undecodable_bytes_are_an_invalid_message() {
    let mut accounts = accounts();
    let mut bytes = message(CrossChainFunction::ReceiveNft).to_bytes();
    assert_eq!(accounts.handler(&bytes[..124]), Err(UniversalNftErrorCode::InvalidMessage));
    bytes[124] = 2;
    assert_eq!(accounts.handler(&bytes), Err(UniversalNftErrorCode::InvalidMessage));
    assert_eq!(accounts.handler(&[]), Err(UniversalNftErrorCode::InvalidMessage));
}

#[test]
fn a_message_about_another_asset_is_an_asset_mismatch() {
    let mut accounts = accounts();
    let mut inbound = message(CrossChainFunction::ReceiveNft);
    inbound.mint = [8u8; 32];
    assert_eq!(
        accounts.handler(&inbound.to_bytes()),
        Err(UniversalNftErrorCode::AssetMismatch)
    );
    let mut outbound = message(CrossChainFunction::TransferNft);
    outbound.mint = [8u8; 32];
    outbound.sender = [9u8; 32];
    assert_eq!(
        accounts.handler(&outbound.to_bytes()),
        Err(UniversalNftErrorCode::AssetMismatch)
    );
}

#[test]
fn a_message_without_origin_record_is_not_found() {
    let mut accounts = accounts();
    let mut inbound = message(CrossChainFunction::ReceiveNft);
    inbound.token_id = mint_to_token_id(&MINT, 100, 2);
    assert_eq!(accounts.handler(&inbound.to_bytes()), Err(UniversalNftErrorCode::NotFound));
    accounts.registry = OriginRegistry::new();
    assert_eq!(
        accounts.handler(&message(CrossChainFunction::TransferNft).to_bytes()),
        Err(UniversalNftErrorCode::NotFound)
    );
}

#[test]
fn a_stored_record_of_another_asset_is_invalid() {
    let mut accounts = accounts();
    let mut registry = OriginRegistry::new();
    let mut foreign = stored();
    foreign.mint = [8u8; 32];
    assert!(registry.load(origin_address(&token_id()).unwrap().0, foreign));
    accounts.registry = registry;
    assert_eq!(
        accounts.handler(&message(CrossChainFunction::ReceiveNft).to_bytes()),
        Err(UniversalNftErrorCode::InvalidOriginRecord)
    );
}

#[test]
fn validate_reports_the_first_failure() {
    let accounts = accounts();
    let good = message(CrossChainFunction::TransferNft);
    assert_eq!(accounts.validate(&good.to_bytes()), Ok(good));
    let mut both = good;
    both.mint = [8u8; 32];
    both.sender = [9u8; 32];
    assert_eq!(accounts.validate(&both.to_bytes()), Err(UniversalNftErrorCode::AssetMismatch));
    let mut other = accounts.clone();
    other.gateway_program = [0u8; 32];
    assert_eq!(other.validate(&both.to_bytes()), Err(UniversalNftErrorCode::InvalidGateway));
}

#[test]
fn act_follows_the_lookup_it_is_given() {
    let accounts = accounts();
    let inbound = message(CrossChainFunction::ReceiveNft);
    assert_eq!(
        accounts.act(&inbound, Err(UniversalNftErrorCode::NotFound)),
        Err(UniversalNftErrorCode::NotFound)
    );
    assert_eq!(
        accounts.act(&inbound, Err(UniversalNftErrorCode::InvalidOriginRecord)),
        Err(UniversalNftErrorCode::InvalidOriginRecord)
    );
    let mut other = stored();
    other.token_id = [0u8; 32];
    assert_eq!(
        accounts.act(&inbound, Ok(other)),
        Err(UniversalNftErrorCode::InvalidOriginRecord)
    );
    let mut renamed = stored();
    renamed.name = text("Other");
    match accounts.act(&inbound, Ok(renamed)) {
        Ok(InboundAction::Receive { mint_to, metadata }) => {
            assert_eq!(mint_to.amount, 1);
            assert_eq!(metadata.name, "Other");
            assert_eq!(metadata.symbol, "UNFT");
        }
        other => panic!("unexpected outcome {:?}", other),
    }
}
