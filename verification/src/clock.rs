use vstd::prelude::*;

use anchor_lang::prelude::{Clock, SolanaSysvar};

verus! {

#[verifier::external_type_specification]
#[verifier::external_body]
pub struct ExProgramError(anchor_lang::prelude::ProgramError);

/// Reads the cluster's `Clock` sysvar through `Clock::get` and hands back its
/// `unix_timestamp`, or the runtime's error where the sysvar cannot be read.
/// The time is whatever the cluster reports, so nothing is promised of it.
#[verifier::external_body]
pub(crate) fn current_unix_timestamp() -> (r: Result<i64, anchor_lang::prelude::ProgramError>) {
    Clock::get().map(|clock| clock.unix_timestamp)
}

} // verus!
