//! What the game takes from the host it runs on: the time, and the error
//! with which the host refuses to give it.

use vstd::prelude::*;
use anchor_lang::prelude::{Clock, ProgramError, SolanaSysvar};
use crate::state::ErrorCode;

verus! {

/// The host's error type, `solana_program_error::ProgramError` as
/// `anchor_lang` hands it on. Values of it are only carried through:
/// nothing is known or claimed of what they hold.
#[verifier::external_type_specification]
#[verifier::external_body]
pub struct ExProgramError(anchor_lang::prelude::ProgramError);

/// Why an instruction did not go through.
#[derive(Debug, PartialEq, Eq)]
pub enum Failure {
    /// The game turned the action down.
    Rejected(ErrorCode),
    /// The host could not tell the time.
    Host(ProgramError),
}

/// Reads the host's clock: `Clock::get()` of the `Sysvar` trait, of which
/// only the field `unix_timestamp` is kept.
///
/// Nothing is claimed of the outcome. The time is whatever the host says
/// it is, two readings may differ, and away from the chain the call fails
/// unless a clock has been installed.
#[verifier::external_body]
pub(crate) fn unix_timestamp() -> (reading: Result<i64, ProgramError>) {
    Clock::get().map(|clock| clock.unix_timestamp)
}

} // verus!
