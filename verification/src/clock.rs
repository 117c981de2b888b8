use anchor_lang::prelude::{Clock, ProgramError, SolanaSysvar};
use vstd::prelude::*;

verus! {

/// The error type of the runtime that the clock is read from. Nothing is
/// known of a value of it.
#[verifier::external_type_specification]
#[verifier::external_body]
pub struct ExProgramError(ProgramError);

/// Reads the cluster's clock with `Clock::get` of `anchor_lang`, and gives
/// its `unix_timestamp`, or the error that `Clock::get` returned.
///
/// Not verified, and nothing is claimed of the result: the time is whatever
/// the runtime says, and outside of a running program `Clock::get` returns
/// an error.
#[verifier::external_body]
pub(crate) fn unix_timestamp() -> (now: Result<i64, ProgramError>) {
    match Clock::get() {
        Ok(clock) => Ok(clock.unix_timestamp),
        Err(e) => Err(e),
    }
}

} // verus!
