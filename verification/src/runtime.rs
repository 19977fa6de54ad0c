//! What the runtime supplies: the addresses of accounts, its errors, and the
//! clock.
//!
//! Nothing in this file is proved. The two types are declared without their
//! contents, and the clock is read behind a function whose body the verifier
//! does not see.

use anchor_lang::prelude::{Clock, ProgramError};
use anchor_lang::solana_program::sysvar::Sysvar;
use vstd::prelude::*;

verus! {

/// `anchor_lang::prelude::Pubkey`, the 32-byte address of an account.
///
/// The protocol stores such addresses and hands them on, and never looks
/// inside one. So the type is declared without its contents, and nothing is
/// assumed of it: to the verifier an address is a value that is copied as it
/// is.
#[verifier::external_type_specification]
#[verifier::external_body]
pub struct ExPubkey(anchor_lang::prelude::Pubkey);

/// `anchor_lang::prelude::ProgramError`, the reason that the runtime gives
/// when it refuses a request.
///
/// The protocol hands such an error on to its caller unchanged. The type is
/// declared without its contents, and nothing is assumed of it.
#[verifier::external_type_specification]
#[verifier::external_body]
pub struct ExProgramError(anchor_lang::prelude::ProgramError);

/// The time that the clock of the runtime shows, in seconds since the Unix
/// epoch: the field `unix_timestamp` of what `Clock::get` returns, or the
/// error with which `Clock::get` fails.
///
/// Nothing is claimed of the outcome. Two readings may differ, and outside
/// the runtime the clock cannot be read at all.
#[verifier::external_body]
pub(crate) fn unix_timestamp() -> (reading: Result<i64, ProgramError>) {
    match Clock::get() {
        Ok(clock) => Ok(clock.unix_timestamp),
        Err(error) => Err(error),
    }
}

} // verus!
