//! Creation of the configuration singleton.

use crate::error::UniversalNftErrorCode;
use crate::state::config::ProgramConfig;
use vstd::prelude::*;

verus! {

/// Bump seeds of the addresses that initialization derives.
#[derive(Clone, Copy, Debug, PartialEq, Eq)]
pub struct InitializeBumps {
    pub config_account: u8,
}

/// What initialization works on: the signing authority and the storage slot
/// of the configuration, empty until the program is initialized.
#[derive(Clone, Copy, Debug, PartialEq, Eq)]
pub struct Initialize {
    pub authority: [u8; 32],
    pub config_account: Option<ProgramConfig>,
}

/// Initialization as a step: an empty slot receives the initial
/// configuration, with the signer as authority, the given gateway and the
/// nonce at 1; an occupied slot is left alone and reported as
/// `AlreadyInitialized`.
pub open spec fn spec_initialize(
    before: Initialize,
    gateway_program: [u8; 32],
    bumps: InitializeBumps,
) -> (Initialize, Result<(), UniversalNftErrorCode>) {
    match before.config_account {
        Some(_) => (before, Err(UniversalNftErrorCode::AlreadyInitialized)),
        None => (
            Initialize {
                config_account: Some(
                    ProgramConfig::spec_initial(
                        before.authority,
                        gateway_program,
                        bumps.config_account,
                    ),
                ),
                ..before
            },
            Ok(()),
        ),
    }
}

impl Initialize {
    /// Creates the configuration singleton, unless it exists.
    pub fn handler(&mut self, gateway_program: [u8; 32], bumps: &InitializeBumps) -> (done: Result<
        (),
        UniversalNftErrorCode,
    >)
        ensures
            (*final(self), done) == spec_initialize(*old(self), gateway_program, *bumps),
    {
        if self.config_account.is_some() {
            return Err(UniversalNftErrorCode::AlreadyInitialized);
        }
        self.config_account = Some(
            ProgramConfig {
                authority: self.authority,
                gateway_program,
                next_token_nonce: 1,
                bump: bumps.config_account,
            },
        );
        Ok(())
    }
}

} // verus!
