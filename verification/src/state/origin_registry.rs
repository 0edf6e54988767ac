//! The origin registry: the store of origin records, keyed by storage
//! address. `create` files a record once, at the address derived from its
//! token id, and nothing on file is ever replaced or removed. `load` mirrors
//! what storage already holds, so a lookup judges what it finds before it
//! trusts it.

use crate::bytes::bytes_eq;
use crate::error::UniversalNftErrorCode;
use crate::state::origin_nft::{
    check_pda, origin_address, spec_origin_address, spec_text_fits, OriginNft, OriginNftView,
};
use vstd::prelude::*;

verus! {

/// One occupied storage location.
#[derive(Clone, Debug, PartialEq, Eq)]
struct OriginEntry {
    address: [u8; 32],
    record: OriginNft,
}

/// The records on file. As a mathematical object the registry is a map from
/// storage address to record.
#[derive(Clone, Debug, PartialEq, Eq)]
pub struct OriginRegistry {
    entries: Vec<OriginEntry>,
}

/// The outcome of a lookup or creation with the record taken as plain data.
pub open spec fn spec_record_view(outcome: Result<OriginNft, UniversalNftErrorCode>) -> Result<
    OriginNftView,
    UniversalNftErrorCode,
> {
    match outcome {
        Ok(record) => Ok(record@),
        Err(e) => Err(e),
    }
}

/// A derived address with its bytes taken as a sequence.
pub open spec fn spec_derived_view(derived: Option<([u8; 32], u8)>) -> Option<(Seq<u8>, u8)> {
    match derived {
        Some((address, bump)) => Some((address@, bump)),
        None => None,
    }
}

/// A record that has not been given its bump seed yet.
pub open spec fn spec_draft(
    token_id: Seq<u8>,
    mint: Seq<u8>,
    slot: u64,
    name: Seq<char>,
    symbol: Seq<char>,
    uri: Seq<char>,
) -> OriginNftView {
    OriginNftView { token_id, slot, mint, name, symbol, uri, bump: 0 }
}

/// Creation on the map: the claimed location `target` must be the derived
/// one and must be empty; then the record is filed there with the derived
/// bump seed. On failure the map is left as it was.
pub open spec fn spec_create_at(
    store: Map<Seq<u8>, OriginNftView>,
    target: Seq<u8>,
    derived: Option<(Seq<u8>, u8)>,
    draft: OriginNftView,
) -> (Map<Seq<u8>, OriginNftView>, Result<OriginNftView, UniversalNftErrorCode>) {
    match derived {
        Some((address, bump)) if address == target => {
            if store.dom().contains(target) {
                (store, Err(UniversalNftErrorCode::AlreadyExists))
            } else {
                let record = OriginNftView { bump, ..draft };
                (store.insert(target, record), Ok(record))
            }
        },
        _ => (store, Err(UniversalNftErrorCode::AddressMismatch)),
    }
}

/// Creation with the location derived from the draft's token id.
pub open spec fn spec_create(
    store: Map<Seq<u8>, OriginNftView>,
    target: Seq<u8>,
    draft: OriginNftView,
) -> (Map<Seq<u8>, OriginNftView>, Result<OriginNftView, UniversalNftErrorCode>) {
    spec_create_at(store, target, spec_origin_address(draft.token_id), draft)
}

/// Lookup on the map: the record at the derived location, provided it
/// carries the token id and the asset it is looked up for.
pub open spec fn spec_get_at(
    store: Map<Seq<u8>, OriginNftView>,
    derived: Option<(Seq<u8>, u8)>,
    token_id: Seq<u8>,
    mint: Seq<u8>,
) -> Result<OriginNftView, UniversalNftErrorCode> {
    match derived {
        Some((address, _)) if store.dom().contains(address) => {
            let record = store[address];
            if record.token_id == token_id && record.mint == mint {
                Ok(record)
            } else {
                Err(UniversalNftErrorCode::InvalidOriginRecord)
            }
        },
        _ => Err(UniversalNftErrorCode::NotFound),
    }
}

/// Lookup with the location derived from the token id.
pub open spec fn spec_get(store: Map<Seq<u8>, OriginNftView>, token_id: Seq<u8>, mint: Seq<u8>)
    -> Result<OriginNftView, UniversalNftErrorCode> {
    spec_get_at(store, spec_origin_address(token_id), token_id, mint)
}

impl View for OriginRegistry {
    type V = Map<Seq<u8>, OriginNftView>;

    closed spec fn view(&self) -> Map<Seq<u8>, OriginNftView> {
        Map::new(
            |a: Seq<u8>| self.spec_holds(a),
            |a: Seq<u8>| self.entries@[self.spec_index_of(a)].record@,
        )
    }
}

impl OriginRegistry {
    /// Well-formedness: no address is on file twice. Every registry that
    /// this module hands out is well formed, and every method keeps it so.
    pub closed spec fn wf(self) -> bool {
        forall|i: int, j: int|
            0 <= i < j < self.entries@.len() ==> (#[trigger] self.entries@[i]).address@ != (
            #[trigger] self.entries@[j]).address@
    }

    closed spec fn spec_holds(self, address: Seq<u8>) -> bool {
        exists|i: int|
            0 <= i < self.entries@.len() && (#[trigger] self.entries@[i]).address@ == address
    }

    closed spec fn spec_index_of(self, address: Seq<u8>) -> int {
        choose|i: int|
            0 <= i < self.entries@.len() && (#[trigger] self.entries@[i]).address@ == address
    }

    /// A registry with nothing on file.
    pub fn new() -> (registry: Self)
        ensures
            registry.wf(),
            registry@ == Map::<Seq<u8>, OriginNftView>::empty(),
    {
        let registry = OriginRegistry { entries: Vec::new() };
        assert(registry@ =~= Map::<Seq<u8>, OriginNftView>::empty());
        registry
    }

    /// Index of the entry stored at `address`.
    fn position(&self, address: &[u8; 32]) -> (found: Option<usize>)
        requires
            self.wf(),
        ensures
            match found {
                Some(i) => i < self.entries@.len() && self.entries@[i as int].address@ == address@
                    && self.spec_holds(address@) && self.spec_index_of(address@) == i,
                None => !self.spec_holds(address@),
            },
    {
        let mut i: usize = 0;
        while i < self.entries.len()
            invariant
                self.wf(),
                i <= self.entries@.len(),
                forall|k: int| 0 <= k < i ==> (#[trigger] self.entries@[k]).address@ != address@,
            decreases self.entries@.len() - i,
        {
            if bytes_eq(self.entries[i].address.as_slice(), address.as_slice()) {
                proof {
                    assert(self.entries@[i as int].address@ == address@);
                    let k = self.spec_index_of(address@);
                    assert(self.entries@[k].address@ == address@);
                    assert(k == i);
                }
                return Some(i);
            }
            i = i + 1;
        }
        None
    }

    /// Whether a record is stored at `address`.
    pub fn contains(&self, address: &[u8; 32]) -> (held: bool)
        requires
            self.wf(),
        ensures
            held == self@.dom().contains(address@),
    {
        self.position(address).is_some()
    }

    /// The record stored at `address`, if there is one.
    pub fn record_at(&self, address: &[u8; 32]) -> (found: Option<OriginNft>)
        requires
            self.wf(),
        ensures
            match found {
                Some(record) => self@.dom().contains(address@) && self@[address@] == record@,
                None => !self@.dom().contains(address@),
            },
    {
        match self.position(address) {
            Some(i) => Some(self.entries[i].record.clone()),
            None => None,
        }
    }

    /// Places `record` at `address` as it was found in storage, without
    /// judging it. Refuses, and changes nothing, if the address is taken.
    pub fn load(&mut self, address: [u8; 32], record: OriginNft) -> (placed: bool)
        requires
            old(self).wf(),
        ensures
            final(self).wf(),
            placed == !old(self)@.dom().contains(address@),
            placed ==> final(self)@ == old(self)@.insert(address@, record@),
            !placed ==> final(self)@ == old(self)@,
    {
        if self.position(&address).is_some() {
            return false;
        }
        let ghost before = *self;
        let ghost filed = record@;
        self.entries.push(OriginEntry { address, record });
        proof {
            lemma_push_is_insert(before, *self, address@, filed);
        }
        true
    }

    /// Files a new record, given the outcome of deriving the address of its
    /// token id. Fails with `AddressMismatch` unless `target` is the derived
    /// address, and with `AlreadyExists` if that address is taken; then
    /// nothing changes. Otherwise the record is stored and returned.
    pub fn create_at(
        &mut self,
        target: &[u8; 32],
        derived: Option<([u8; 32], u8)>,
        token_id: [u8; 32],
        mint: [u8; 32],
        slot: u64,
        name: String,
        symbol: String,
        uri: String,
    ) -> (created: Result<OriginNft, UniversalNftErrorCode>)
        requires
            old(self).wf(),
            spec_text_fits(name@, symbol@, uri@),
        ensures
            final(self).wf(),
            (final(self)@, spec_record_view(created)) == spec_create_at(
                old(self)@,
                target@,
                spec_derived_view(derived),
                spec_draft(token_id@, mint@, slot, name@, symbol@, uri@),
            ),
            created matches Ok(record) ==> record.wf(),
    {
        let bump = match check_pda(target, derived) {
            Ok((_, bump)) => bump,
            Err(e) => {
                return Err(e);
            },
        };
        if self.contains(target) {
            return Err(UniversalNftErrorCode::AlreadyExists);
        }
        let record = OriginNft { token_id, slot, mint, name, symbol, uri, bump };
        let filed = record.clone();
        let placed = self.load(*target, record);
        assert(placed);
        Ok(filed)
    }

    /// Files a new record under the address derived from `token_id`.
    pub fn create(
        &mut self,
        target: &[u8; 32],
        token_id: [u8; 32],
        mint: [u8; 32],
        slot: u64,
        name: String,
        symbol: String,
        uri: String,
    ) -> (created: Result<OriginNft, UniversalNftErrorCode>)
        requires
            old(self).wf(),
            spec_text_fits(name@, symbol@, uri@),
        ensures
            final(self).wf(),
            (final(self)@, spec_record_view(created)) == spec_create(
                old(self)@,
                target@,
                spec_draft(token_id@, mint@, slot, name@, symbol@, uri@),
            ),
            created matches Ok(record) ==> record.wf(),
    {
        let derived = origin_address(token_id.as_slice());
        self.create_at(target, derived, token_id, mint, slot, name, symbol, uri)
    }

    /// Looks a record up, given the outcome of deriving the address of its
    /// token id. `NotFound` if nothing is stored there; `InvalidOriginRecord`
    /// if what is stored carries another token id or another asset.
    pub fn get_at(
        &self,
        derived: Option<([u8; 32], u8)>,
        token_id: &[u8; 32],
        mint: &[u8; 32],
    ) -> (found: Result<OriginNft, UniversalNftErrorCode>)
        requires
            self.wf(),
        ensures
            spec_record_view(found) == spec_get_at(
                self@,
                spec_derived_view(derived),
                token_id@,
                mint@,
            ),
    {
        let address = match derived {
            Some((address, _)) => address,
            None => {
                return Err(UniversalNftErrorCode::NotFound);
            },
        };
        match self.record_at(&address) {
            Some(record) => {
                if bytes_eq(record.token_id.as_slice(), token_id.as_slice()) && bytes_eq(
                    record.mint.as_slice(),
                    mint.as_slice(),
                ) {
                    Ok(record)
                } else {
                    Err(UniversalNftErrorCode::InvalidOriginRecord)
                }
            },
            None => Err(UniversalNftErrorCode::NotFound),
        }
    }

    /// Looks up the record of `token_id` for the asset `mint` at the address
    /// derived from the token id.
    pub fn get(&self, token_id: &[u8; 32], mint: &[u8; 32]) -> (found: Result<
        OriginNft,
        UniversalNftErrorCode,
    >)
        requires
            self.wf(),
        ensures
            spec_record_view(found) == spec_get(self@, token_id@, mint@),
    {
        let derived = origin_address(token_id.as_slice());
        self.get_at(derived, token_id, mint)
    }
}

/// Creating twice under one token id: once the first creation has succeeded,
/// a second one at the same location fails with `AlreadyExists`, whatever it
/// tries to file, and the store stays as the first creation left it.
pub proof fn lemma_create_twice(
    store: Map<Seq<u8>, OriginNftView>,
    target: Seq<u8>,
    first: OriginNftView,
    second: OriginNftView,
)
    requires
        first.token_id == second.token_id,
        spec_create(store, target, first).1 is Ok,
    ensures
        spec_create(spec_create(store, target, first).0, target, second) == (
            spec_create(store, target, first).0,
            Err::<OriginNftView, UniversalNftErrorCode>(UniversalNftErrorCode::AlreadyExists),
        ),
{
}

/// A record that was created is found again under its token id and asset.
pub proof fn lemma_get_after_create(
    store: Map<Seq<u8>, OriginNftView>,
    target: Seq<u8>,
    draft: OriginNftView,
)
    requires
        spec_create(store, target, draft).1 is Ok,
    ensures
        spec_get(spec_create(store, target, draft).0, draft.token_id, draft.mint) == spec_create(
            store,
            target,
            draft,
        ).1,
{
}

/// Adding an entry at a fresh address to the list inserts into the map.
proof fn lemma_push_is_insert(
    before: OriginRegistry,
    after: OriginRegistry,
    address: Seq<u8>,
    record: OriginNftView,
)
    requires
        before.wf(),
        !before.spec_holds(address),
        after.entries@.len() == before.entries@.len() + 1,
        forall|i: int| 0 <= i < before.entries@.len() ==> after.entries@[i] == before.entries@[i],
        after.entries@[before.entries@.len() as int].address@ == address,
        after.entries@[before.entries@.len() as int].record@ == record,
    ensures
        after.wf(),
        after@ == before@.insert(address, record),
{
    let n = before.entries@.len() as int;
    assert forall|i: int, j: int| 0 <= i < j < after.entries@.len() implies (
    #[trigger] after.entries@[i]).address@ != (#[trigger] after.entries@[j]).address@ by {
        if j < n {
            assert(before.entries@[i].address@ != before.entries@[j].address@);
        } else {
            assert(before.entries@[i].address@ != address);
        }
    }
    assert forall|a: Seq<u8>| after.spec_holds(a) <==> (a == address || before.spec_holds(a)) by {
        if after.spec_holds(a) {
            let i = after.spec_index_of(a);
            if i < n {
                assert(before.entries@[i].address@ == a);
            }
        }
        if a == address {
            assert(after.entries@[n].address@ == a);
        }
        if before.spec_holds(a) {
            let i = before.spec_index_of(a);
            assert(after.entries@[i].address@ == a);
        }
    }
    assert forall|a: Seq<u8>| after.spec_holds(a) implies #[trigger] after@[a] == before@.insert(
        address,
        record,
    )[a] by {
        let i = after.spec_index_of(a);
        if a == address {
            if i < n {
                assert(before.entries@[i].address@ == address);
            }
            assert(i == n);
        } else {
            assert(i < n);
            assert(before.entries@[i].address@ == a);
            let k = before.spec_index_of(a);
            if k != i {
                if k < i {
                    assert(before.entries@[k].address@ != before.entries@[i].address@);
                } else {
                    assert(before.entries@[i].address@ != before.entries@[k].address@);
                }
            }
        }
    }
    assert(after@ =~= before@.insert(address, record));
}

} // verus!
