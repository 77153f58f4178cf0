use vstd::prelude::*;
use anchor_lang::solana_program::program_error::ProgramError;
use anchor_lang::solana_program::sysvar::Sysvar;
use crate::records::ErrorCode;

verus! {

#[verifier::external_type_specification]
#[verifier::external_body]
pub struct ExProgramError(ProgramError);

/// Relies on `Clock::get` (solana_program's clock sysvar, re-exported by
/// anchor_lang): the ledger's current unix timestamp, or the error of the
/// sysvar read. Nothing is promised of the value: it is the time.
#[verifier::external_body]
fn clock_unix_timestamp() -> (r: Result<i64, ProgramError>) {
    anchor_lang::solana_program::clock::Clock::get().map(|c| c.unix_timestamp)
}

/// The ledger's current unix timestamp; `ClockUnavailable` where the clock
/// sysvar cannot be read (as off the ledger).
pub fn current_time() -> (r: Result<i64, ErrorCode>)
    ensures
        r matches Err(e) ==> e == ErrorCode::ClockUnavailable,
{
    match clock_unix_timestamp() {
        Ok(t) => Ok(t),
        Err(_) => Err(ErrorCode::ClockUnavailable),
    }
}

} // verus!
