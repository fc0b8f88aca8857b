//! The boundary with the runtime's crates.
//!
//! Nothing in this file is proved. Each item says what it assumes of the outside
//! code, so that the assumptions can be held against that code.

use anchor_lang::prelude::{Clock, ProgramError, Pubkey};
use anchor_lang::solana_program::sysvar::Sysvar;
use vstd::prelude::*;

verus! {

/// `Pubkey`, the 32-byte address of an account. The library carries such a value
/// from the signer into the record and never looks inside it; what it holds is
/// spoken of through [`key_bytes`].
#[verifier::external_type_specification]
#[verifier::external_body]
pub struct ExPubkey(anchor_lang::prelude::Pubkey);

/// `ProgramError`, the runtime's own failure codes. The library passes such a value
/// on to the caller as it came.
#[verifier::external_type_specification]
#[verifier::external_body]
pub struct ExProgramError(anchor_lang::prelude::ProgramError);

/// The bytes that a key holds, as `Pubkey::to_bytes` hands them out.
pub uninterp spec fn key_bytes(key: Pubkey) -> [u8; 32];

/// Calls `Pubkey::to_bytes`, which returns a copy of the array that the key wraps.
/// Assumed: the array depends on the key alone, so it can be named by [`key_bytes`].
#[verifier::external_body]
pub(crate) fn key_to_bytes(key: &Pubkey) -> (bytes: [u8; 32])
    ensures
        bytes == key_bytes(*key),
{
    key.to_bytes()
}

/// Calls `Clock::get`, which asks the runtime for the clock sysvar, and picks the
/// field `unix_timestamp` out of it: the approximate real-world time of the current
/// slot, in seconds since the Unix epoch.
///
/// Nothing is assumed of the result. Which time comes back, and whether one comes
/// back at all, is the runtime's business: outside a validator, and unless the
/// process has installed syscall stubs of its own, the call fails with
/// `ProgramError::UnsupportedSysvar`. The call takes no argument and returns in
/// either case; with stubs installed it does whatever they do.
#[verifier::external_body]
pub(crate) fn clock_unix_timestamp() -> (reading: Result<i64, ProgramError>) {
    match Clock::get() {
        Ok(clock) => Ok(clock.unix_timestamp),
        Err(e) => Err(e),
    }
}

} // verus!
