//! Issuing a new asset: the freshness check on the claimed slot, the token
//! id, the origin record, and the nonce.

use crate::constants::MAX_PASS_SLOT;
use crate::error::UniversalNftErrorCode;
use crate::instructions::requests::{
    metadata_for, mint_one, spec_metadata, spec_mint_one, MetadataAttachment,
    MetadataAttachmentView, TokenMint,
};
use crate::state::config::ProgramConfig;
use crate::state::origin_nft::{
    mint_to_token_id, origin_address, spec_origin_address, spec_text_fits, spec_token_id,
    OriginNft, OriginNftView,
};
use crate::state::origin_registry::{
    spec_create_at, spec_derived_view, spec_draft, spec_record_view, OriginRegistry,
};
use vstd::prelude::*;

verus! {

/// What issuing works on.
#[derive(Clone, Debug, PartialEq, Eq)]
pub struct NewNft {
    pub payer: [u8; 32],
    /// Owner of the holding that receives the asset.
    pub recipient: [u8; 32],
    pub config_account: ProgramConfig,
    /// The asset.
    pub mint: [u8; 32],
    /// The recipient's holding of the asset.
    pub recipient_ata: [u8; 32],
    /// The storage location that the caller claims for the origin record.
    pub origin_nft: [u8; 32],
    pub registry: OriginRegistry,
    /// The ledger's current slot.
    pub clock_slot: u64,
}

/// What a successful issue asks for and leaves behind.
#[derive(Clone, Debug, PartialEq, Eq)]
pub struct NftIssue {
    pub mint_to: TokenMint,
    pub metadata: MetadataAttachment,
    /// The origin record that was filed.
    pub origin: OriginNft,
}

/// An issue as plain data.
pub ghost struct NftIssueView {
    pub mint_to: TokenMint,
    pub metadata: MetadataAttachmentView,
    pub origin: OriginNftView,
}

impl View for NftIssue {
    type V = NftIssueView;

    open spec fn view(&self) -> NftIssueView {
        NftIssueView { mint_to: self.mint_to, metadata: self.metadata@, origin: self.origin@ }
    }
}

/// An issue's outcome with the issue taken as plain data.
pub open spec fn spec_issue_view(outcome: Result<NftIssue, UniversalNftErrorCode>) -> Result<
    NftIssueView,
    UniversalNftErrorCode,
> {
    match outcome {
        Ok(issue) => Ok(issue@),
        Err(e) => Err(e),
    }
}

/// The freshness window: a claimed slot is fresh if it is not ahead of the
/// current slot and at most `MAX_PASS_SLOT` behind it.
pub open spec fn spec_slot_is_fresh(slot: u64, current_slot: u64) -> bool {
    current_slot - MAX_PASS_SLOT <= slot <= current_slot
}

/// Tests a claimed slot against the freshness window.
pub fn slot_is_fresh(slot: u64, current_slot: u64) -> (fresh: bool)
    ensures
        fresh == spec_slot_is_fresh(slot, current_slot),
{
    slot <= current_slot && current_slot - slot <= MAX_PASS_SLOT
}

/// Filing an origin record on the map: a stale slot is refused before
/// anything else is looked at; a fresh one goes on to creation.
pub open spec fn spec_file_origin(
    store: Map<Seq<u8>, OriginNftView>,
    target: Seq<u8>,
    clock_slot: u64,
    slot: u64,
    derived: Option<(Seq<u8>, u8)>,
    draft: OriginNftView,
) -> (Map<Seq<u8>, OriginNftView>, Result<OriginNftView, UniversalNftErrorCode>) {
    if spec_slot_is_fresh(slot, clock_slot) {
        spec_create_at(store, target, derived, draft)
    } else {
        (store, Err(UniversalNftErrorCode::StaleHeight))
    }
}

/// Issuing, as a step from the store and the configuration to the new store,
/// the new configuration and the outcome. On success the record is filed,
/// the nonce has moved on by one, and one unit is to be minted with the
/// record's text as metadata. On failure store and configuration stay.
pub open spec fn spec_issue(
    accounts: NewNft,
    slot: u64,
    name: Seq<char>,
    symbol: Seq<char>,
    uri: Seq<char>,
    token_id: Seq<u8>,
    derived: Option<(Seq<u8>, u8)>,
) -> (Map<Seq<u8>, OriginNftView>, ProgramConfig, Result<NftIssueView, UniversalNftErrorCode>) {
    let filing = spec_file_origin(
        accounts.registry@,
        accounts.origin_nft@,
        accounts.clock_slot,
        slot,
        derived,
        spec_draft(token_id, accounts.mint@, slot, name, symbol, uri),
    );
    match filing.1 {
        Ok(origin) => (
            filing.0,
            ProgramConfig {
                next_token_nonce: (accounts.config_account.next_token_nonce + 1) as u64,
                ..accounts.config_account
            },
            Ok(
                NftIssueView {
                    mint_to: spec_mint_one(accounts.mint, accounts.recipient_ata, accounts.payer),
                    metadata: spec_metadata(accounts.mint@, accounts.payer@, name, symbol, uri),
                    origin,
                },
            ),
        ),
        Err(e) => (accounts.registry@, accounts.config_account, Err(e)),
    }
}

/// Whether the location that the accounts claim for the origin record is the
/// derived one and holds nothing yet.
pub open spec fn spec_location_is_free(accounts: NewNft, derived: Option<(Seq<u8>, u8)>) -> bool {
    match derived {
        Some((address, _)) => address == accounts.origin_nft@ && !accounts.registry@.dom().contains(
            address,
        ),
        None => false,
    }
}

/// The freshness window's lower end is inclusive. An issue whose claimed
/// slot lies further than `MAX_PASS_SLOT` behind the current slot fails with
/// `StaleHeight`. One whose claimed slot lies exactly that far behind is not
/// stale: it succeeds whenever the claimed location is free.
pub proof fn lemma_issue_freshness(
    accounts: NewNft,
    slot: u64,
    name: Seq<char>,
    symbol: Seq<char>,
    uri: Seq<char>,
    token_id: Seq<u8>,
    derived: Option<(Seq<u8>, u8)>,
)
    ensures
        slot < accounts.clock_slot - MAX_PASS_SLOT ==> spec_issue(
            accounts,
            slot,
            name,
            symbol,
            uri,
            token_id,
            derived,
        ).2 == Err::<NftIssueView, UniversalNftErrorCode>(UniversalNftErrorCode::StaleHeight),
        slot == accounts.clock_slot - MAX_PASS_SLOT && spec_location_is_free(accounts, derived)
            ==> spec_issue(accounts, slot, name, symbol, uri, token_id, derived).2 is Ok,
{
}

/// An issue happens as a whole or not at all: if it succeeds, the record is
/// on file at the claimed location and the nonce has moved on by one; if it
/// fails, the store and the configuration are what they were.
pub proof fn lemma_issue_all_or_nothing(
    accounts: NewNft,
    slot: u64,
    name: Seq<char>,
    symbol: Seq<char>,
    uri: Seq<char>,
    token_id: Seq<u8>,
    derived: Option<(Seq<u8>, u8)>,
)
    requires
        accounts.config_account.next_token_nonce < u64::MAX,
    ensures
        ({
            let step = spec_issue(accounts, slot, name, symbol, uri, token_id, derived);
            match step.2 {
                Ok(issue) => {
                    &&& !accounts.registry@.dom().contains(accounts.origin_nft@)
                    &&& step.0 == accounts.registry@.insert(accounts.origin_nft@, issue.origin)
                    &&& step.1.next_token_nonce == accounts.config_account.next_token_nonce + 1
                    &&& issue.origin.token_id == token_id
                    &&& issue.origin.mint == accounts.mint@
                    &&& issue.origin.slot == slot
                },
                Err(_) => step.0 == accounts.registry@ && step.1 == accounts.config_account,
            }
        }),
{
}

/// Whether two sets of accounts agree in everything that issuing only reads.
pub open spec fn spec_same_parties(a: NewNft, b: NewNft) -> bool {
    &&& a.payer == b.payer
    &&& a.recipient == b.recipient
    &&& a.mint == b.mint
    &&& a.recipient_ata == b.recipient_ata
    &&& a.origin_nft == b.origin_nft
    &&& a.clock_slot == b.clock_slot
}

impl NewNft {
    /// Issues the asset: derives its token id from the asset's address, the
    /// claimed slot and the current nonce, derives the record's address from
    /// the token id, and goes on as `issue` does.
    pub fn handler(&mut self, slot: u64, name: String, symbol: String, uri: String) -> (issued:
        Result<NftIssue, UniversalNftErrorCode>)
        requires
            old(self).registry.wf(),
            old(self).config_account.next_token_nonce < u64::MAX,
            spec_text_fits(name@, symbol@, uri@),
        ensures
            final(self).registry.wf(),
            spec_same_parties(*final(self), *old(self)),
            (final(self).registry@, final(self).config_account, spec_issue_view(issued))
                == spec_issue(
                *old(self),
                slot,
                name@,
                symbol@,
                uri@,
                spec_token_id(old(self).mint@, slot, old(self).config_account.next_token_nonce),
                spec_origin_address(
                    spec_token_id(old(self).mint@, slot, old(self).config_account.next_token_nonce),
                ),
            ),
    {
        let token_id = mint_to_token_id(&self.mint, slot, self.config_account.next_token_nonce);
        let derived = origin_address(token_id.as_slice());
        self.issue(slot, name, symbol, uri, token_id, derived)
    }

    /// Issues the asset under a token id that has been derived already, with
    /// the outcome of deriving its record's address. Fails as
    /// `init_origin_nft_account` does, leaving everything as it was;
    /// otherwise the record is filed and the nonce moves on by one.
    pub fn issue(
        &mut self,
        slot: u64,
        name: String,
        symbol: String,
        uri: String,
        token_id: [u8; 32],
        derived: Option<([u8; 32], u8)>,
    ) -> (issued: Result<NftIssue, UniversalNftErrorCode>)
        requires
            old(self).registry.wf(),
            old(self).config_account.next_token_nonce < u64::MAX,
            spec_text_fits(name@, symbol@, uri@),
        ensures
            final(self).registry.wf(),
            spec_same_parties(*final(self), *old(self)),
            (final(self).registry@, final(self).config_account, spec_issue_view(issued))
                == spec_issue(
                *old(self),
                slot,
                name@,
                symbol@,
                uri@,
                token_id@,
                spec_derived_view(derived),
            ),
    {
        let filed = self.init_origin_nft_account(&name, &symbol, &uri, slot, token_id, derived);
        let origin = match filed {
            Ok(origin) => origin,
            Err(e) => {
                return Err(e);
            },
        };
        let (mint_to, metadata) = self.create_a_new_nft(&name, &symbol, &uri);
        self.config_account.increment_token_nonce();
        Ok(NftIssue { mint_to, metadata, origin })
    }

    /// Files the origin record of the asset under `token_id`, whose address
    /// derivation gave `derived`. In this order: a stale slot is
    /// `StaleHeight`; a claimed location other than the derived one is
    /// `AddressMismatch`; an occupied location is `AlreadyExists`. On failure
    /// nothing changes.
    pub fn init_origin_nft_account(
        &mut self,
        name: &String,
        symbol: &String,
        uri: &String,
        slot: u64,
        token_id: [u8; 32],
        derived: Option<([u8; 32], u8)>,
    ) -> (filed: Result<OriginNft, UniversalNftErrorCode>)
        requires
            old(self).registry.wf(),
            spec_text_fits(name@, symbol@, uri@),
        ensures
            final(self).registry.wf(),
            spec_same_parties(*final(self), *old(self)),
            final(self).config_account == old(self).config_account,
            (final(self).registry@, spec_record_view(filed)) == spec_file_origin(
                old(self).registry@,
                old(self).origin_nft@,
                old(self).clock_slot,
                slot,
                spec_derived_view(derived),
                spec_draft(token_id@, old(self).mint@, slot, name@, symbol@, uri@),
            ),
            filed matches Ok(record) ==> record.wf(),
    {
        if !slot_is_fresh(slot, self.clock_slot) {
            return Err(UniversalNftErrorCode::StaleHeight);
        }
        let target = self.origin_nft;
        self.registry.create_at(
            &target,
            derived,
            token_id,
            self.mint,
            slot,
            name.clone(),
            symbol.clone(),
            uri.clone(),
        )
    }

    /// What the token and metadata programs are asked for when the asset is
    /// issued: one unit minted to the recipient's holding, and the metadata.
    pub fn create_a_new_nft(&self, name: &String, symbol: &String, uri: &String) -> (requests: (
        TokenMint,
        MetadataAttachment,
    ))
        ensures
            requests.0 == spec_mint_one(self.mint, self.recipient_ata, self.payer),
            requests.1@ == spec_metadata(self.mint@, self.payer@, name@, symbol@, uri@),
    {
        (
            mint_one(self.mint, self.recipient_ata, self.payer),
            metadata_for(self.mint, self.payer, name, symbol, uri),
        )
    }
}

} // verus!
