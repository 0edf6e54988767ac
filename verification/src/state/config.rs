//! The program-wide configuration: who administers the bridge, which gateway
//! it trusts, and the counter that makes every token id unique.

use vstd::prelude::*;

verus! {

#[derive(Clone, Copy, Debug, PartialEq, Eq)]
pub struct ProgramConfig {
    /// Authority that may update the configuration.
    pub authority: [u8; 32],
    /// The only gateway program whose inbound messages are trusted.
    pub gateway_program: [u8; 32],
    /// Nonce that the next issued token will be derived from. Starts at 1 and
    /// only grows.
    pub next_token_nonce: u64,
    /// Bump seed of the address the configuration is stored at.
    pub bump: u8,
}

impl ProgramConfig {
    /// The configuration as it stands right after initialization.
    pub open spec fn spec_initial(
        authority: [u8; 32],
        gateway_program: [u8; 32],
        bump: u8,
    ) -> Self {
        ProgramConfig { authority, gateway_program, next_token_nonce: 1, bump }
    }

    /// Moves the counter on by one.
    pub fn increment_token_nonce(&mut self)
        requires
            old(self).next_token_nonce < u64::MAX,
        ensures
            final(self).next_token_nonce == old(self).next_token_nonce + 1,
            final(self).authority == old(self).authority,
            final(self).gateway_program == old(self).gateway_program,
            final(self).bump == old(self).bump,
    {
        self.next_token_nonce += 1;
    }

    /// Hands out the current nonce and moves the counter on, so that no nonce
    /// is handed out twice.
    pub fn next_nonce(&mut self) -> (nonce: u64)
        requires
            old(self).next_token_nonce < u64::MAX,
        ensures
            nonce == old(self).next_token_nonce,
            final(self).next_token_nonce == nonce + 1,
            final(self).authority == old(self).authority,
            final(self).gateway_program == old(self).gateway_program,
            final(self).bump == old(self).bump,
    {
        let nonce = self.next_token_nonce;
        self.increment_token_nonce();
        nonce
    }
}

} // verus!
