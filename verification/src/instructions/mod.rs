//! The entry points of the bridge. Each one decides on plain values and says
//! what the token program, the metadata program and the gateway are to be
//! asked for; carrying those requests out is left to the caller.

pub mod initialize;
pub mod new_nft;
pub mod on_call;
pub mod requests;
pub mod transfer_nft;
