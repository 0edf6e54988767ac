//! What the bridge stores and what it sends.

pub mod config;
pub mod cross_chain_message;
pub mod origin_nft;
pub mod origin_registry;
