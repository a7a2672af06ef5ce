//! The current time, as the runtime's clock gives it.
use vstd::prelude::*;
use anchor_lang::prelude::{Clock, ProgramError, SolanaSysvar};

verus! {

/// The runtime's error type, carried through unchanged.
#[verifier::external_type_specification]
#[verifier::external_body]
pub struct ExProgramError(ProgramError);

/// Reads the clock through `Clock::get` (the sysvar read of the runtime) and
/// hands out its `unix_timestamp`, or the runtime's error. What time it gives
/// depends on the runtime, and outside the runtime the read fails: nothing is
/// promised of the result.
#[verifier::external_body]
pub(crate) fn unix_timestamp_now() -> (res: Result<i64, ProgramError>) {
    Clock::get().map(|clock| clock.unix_timestamp)
}

} // verus!
