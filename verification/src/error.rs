//! The failures the bridge reports. Each one ends the operation that raised
//! it; nothing is retried inside the library.

use vstd::prelude::*;

verus! {

#[derive(Clone, Copy, Debug, PartialEq, Eq, Structural)]
pub enum UniversalNftErrorCode {
    /// The storage location handed in is not the address derived from the
    /// token id.
    AddressMismatch,
    /// The derived storage location already holds a record.
    AlreadyExists,
    /// No record is stored at the derived location.
    NotFound,
    /// The stored record contradicts the token id or asset it was looked up
    /// for.
    InvalidOriginRecord,
    /// The claimed height lies outside the freshness window.
    StaleHeight,
    /// The bytes are not the encoding of any cross-chain message.
    MalformedMessage,
    /// An inbound message could not be decoded.
    InvalidMessage,
    /// The message speaks of another asset than the one at hand.
    AssetMismatch,
    /// The message's sender is not the party that invoked the operation.
    UnauthorizedSender,
    /// The configuration singleton has been created before.
    AlreadyInitialized,
    /// The invoking gateway is not the one the configuration trusts.
    InvalidGateway,
}

} // verus!
