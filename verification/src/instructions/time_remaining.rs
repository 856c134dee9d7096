use vstd::prelude::*;

use crate::clock::current_unix_timestamp;
use crate::error::{InstructionError, VaultError};
use crate::state::VaultState;

verus! {

/// The accounts of the read-only instruction that reports how long a vault
/// stays locked.
#[derive(Clone, Copy, Debug)]
pub struct TimeRemaining {
    pub vault_state: VaultState,
}

/// Seconds from `now` until `unlock_time`, or zero once it has passed.
pub open spec fn remaining_time(unlock_time: i64, now: i64) -> int {
    if unlock_time - now > 0 {
        unlock_time - now
    } else {
        0
    }
}

/// Whether `unlock_time - now` fits in an `i64`.
pub open spec fn difference_fits(unlock_time: i64, now: i64) -> bool {
    i64::MIN <= unlock_time - now <= i64::MAX
}

/// What the instruction answers at unix time `now`: the seconds remaining,
/// or `Overflow` where `unlock_time - now` does not fit in an `i64`.
pub open spec fn time_remaining_result(unlock_time: i64, now: i64) -> Result<i64, VaultError> {
    if difference_fits(unlock_time, now) {
        Ok(remaining_time(unlock_time, now) as i64)
    } else {
        Err(VaultError::Overflow)
    }
}

impl TimeRemaining {
    /// Seconds until the vault unlocks, as of unix time `now`; zero once
    /// unlocked; `Overflow` where the difference does not fit in an `i64`.
    pub fn time_remaining_at(&self, now: i64) -> (r: Result<i64, VaultError>)
        ensures
            r == time_remaining_result(self.vault_state.unlock_time, now),
            // told directly in terms of the inputs
            now >= self.vault_state.unlock_time && self.vault_state.unlock_time - now >= i64::MIN
                ==> r == Ok::<i64, VaultError>(0),
            now < self.vault_state.unlock_time && self.vault_state.unlock_time - now <= i64::MAX
                ==> r == Ok::<i64, VaultError>((self.vault_state.unlock_time - now) as i64),
            r is Err <==> (self.vault_state.unlock_time - now > i64::MAX
                || self.vault_state.unlock_time - now < i64::MIN),
    {
        match self.vault_state.unlock_time.checked_sub(now) {
            Some(diff) => {
                if diff > 0 {
                    Ok(diff)
                } else {
                    Ok(0)
                }
            },
            None => Err(VaultError::Overflow),
        }
    }

    /// Seconds until the vault unlocks, as of the cluster clock: what
    /// `time_remaining_at` answers at the time the clock reported.
    pub fn time_remaining(&self) -> (r: Result<i64, InstructionError>)
        ensures
            r matches Ok(t) ==> t >= 0 && t <= self.vault_state.unlock_time - i64::MIN && exists|now: i64|
                #[trigger] time_remaining_result(self.vault_state.unlock_time, now) == Ok::<
                    i64,
                    VaultError,
                >(t),
            r matches Err(InstructionError::Vault(e)) ==> exists|now: i64|
                #[trigger] time_remaining_result(self.vault_state.unlock_time, now) == Err::<
                    i64,
                    VaultError,
                >(e),
    {
        let now = match current_unix_timestamp() {
            Ok(now) => now,
            Err(e) => {
                return Err(InstructionError::Runtime(e));
            },
        };
        match self.time_remaining_at(now) {
            Ok(t) => Ok(t),
            Err(e) => Err(InstructionError::Vault(e)),
        }
    }
}

} // verus!
