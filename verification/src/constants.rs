//! Fixed parameters of the bridge.

use vstd::prelude::*;

verus! {

/// How many slots a claimed creation slot may lie behind the current one.
pub const MAX_PASS_SLOT: u64 = 150;

/// Length in bytes of an encoded cross-chain message.
pub const MESSAGE_LEN: usize = 125;

} // verus!
