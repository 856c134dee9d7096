use vstd::prelude::*;

use crate::clock::current_unix_timestamp;
use crate::error::{InstructionError, VaultError};
use crate::events::VaultInitialized;
use crate::key::Pubkey;
use crate::state::VaultState;

verus! {

/// The shortest lock a vault accepts, in seconds.
pub const MIN_LOCK_DURATION: i64 = 60;

/// The longest lock a vault accepts, in seconds (four years of 365 days).
pub const MAX_LOCK_DURATION: i64 = 4 * 365 * 24 * 3600;

/// The bumps found for the two program addresses of a new vault.
#[derive(Clone, Copy, Debug)]
pub struct InitializeBumps {
    pub vault_state: u8,
    pub vault_token_account: u8,
}

/// The accounts of the instruction that creates a vault.
#[derive(Clone, Copy, Debug)]
pub struct Initialize {
    /// The signer, who becomes the vault's owner.
    pub owner: Pubkey,
    /// The mint of the tokens the vault will hold.
    pub mint: Pubkey,
    /// The freshly created state account, filled in by `initialize`.
    pub vault_state: VaultState,
}

/// Why a vault with lock `lock_duration` cannot be created at unix time `now`.
pub open spec fn initialize_rejection(lock_duration: i64, now: i64) -> Option<VaultError> {
    if lock_duration < MIN_LOCK_DURATION {
        Some(VaultError::LockDurationTooShort)
    } else if lock_duration > MAX_LOCK_DURATION {
        Some(VaultError::LockDurationTooLong)
    } else if now + lock_duration > i64::MAX {
        Some(VaultError::Overflow)
    } else {
        None
    }
}

/// The state of a vault created at unix time `now`.
pub open spec fn initialized_state(
    owner: Pubkey,
    mint: Pubkey,
    bumps: InitializeBumps,
    lock_duration: i64,
    now: i64,
) -> VaultState {
    VaultState {
        owner,
        mint,
        bump: bumps.vault_state,
        vault_bump: bumps.vault_token_account,
        lock_duration,
        unlock_time: (now + lock_duration) as i64,
        total_deposited: 0,
    }
}

/// The event of a vault created at unix time `now`.
pub open spec fn initialized_event(
    owner: Pubkey,
    mint: Pubkey,
    lock_duration: i64,
    now: i64,
) -> VaultInitialized {
    VaultInitialized { owner, mint, unlock_time: (now + lock_duration) as i64, lock_duration }
}

impl Initialize {
    /// The accounts after a successful creation at unix time `now`.
    pub open spec fn after_initialize(
        self,
        bumps: InitializeBumps,
        lock_duration: i64,
        now: i64,
    ) -> Initialize {
        Initialize {
            vault_state: initialized_state(self.owner, self.mint, bumps, lock_duration, now),
            ..self
        }
    }

    /// What holds of every created vault, whatever the time, told directly in
    /// terms of the accounts before and after, the inputs and the event: the
    /// lock is within bounds, the state records the signer, the mint, the
    /// given bumps and lock duration, an unlock time that many seconds after
    /// creation and an empty deposit total, and the event reports the same.
    pub open spec fn created(
        before: Initialize,
        after: Initialize,
        bumps: InitializeBumps,
        lock_duration: i64,
        ev: VaultInitialized,
    ) -> bool {
        &&& MIN_LOCK_DURATION <= lock_duration <= MAX_LOCK_DURATION
        &&& after.owner == before.owner
        &&& after.mint == before.mint
        &&& after.vault_state.owner == before.owner
        &&& after.vault_state.mint == before.mint
        &&& after.vault_state.bump == bumps.vault_state
        &&& after.vault_state.vault_bump == bumps.vault_token_account
        &&& after.vault_state.lock_duration == lock_duration
        &&& after.vault_state.total_deposited == 0
        &&& ev.owner == before.owner
        &&& ev.mint == before.mint
        &&& ev.lock_duration == lock_duration
        &&& ev.unlock_time == after.vault_state.unlock_time
    }

    /// Creates the vault as of unix time `now`: the lock must last between
    /// `MIN_LOCK_DURATION` and `MAX_LOCK_DURATION` seconds, and the vault
    /// unlocks at `now + lock_duration`.
    pub fn initialize_at(&mut self, bumps: &InitializeBumps, lock_duration: i64, now: i64) -> (r:
        Result<VaultInitialized, VaultError>)
        ensures
            match initialize_rejection(lock_duration, now) {
                Some(e) => r == Err::<VaultInitialized, VaultError>(e) && *final(self) == *old(self),
                None => {
                    &&& r == Ok::<VaultInitialized, VaultError>(
                        initialized_event(old(self).owner, old(self).mint, lock_duration, now),
                    )
                    &&& *final(self) == old(self).after_initialize(*bumps, lock_duration, now)
                },
            },
            // a created vault, told directly in terms of the inputs
            r is Ok ==> Self::created(*old(self), *final(self), *bumps, lock_duration, r->Ok_0),
            r matches Ok(ev) ==> ev.unlock_time == now + lock_duration,
            r is Err ==> *final(self) == *old(self),
    {
        if lock_duration < MIN_LOCK_DURATION {
            return Err(VaultError::LockDurationTooShort);
        }
        if lock_duration > MAX_LOCK_DURATION {
            return Err(VaultError::LockDurationTooLong);
        }
        let unlock_time = match now.checked_add(lock_duration) {
            Some(t) => t,
            None => {
                return Err(VaultError::Overflow);
            },
        };
        self.vault_state = VaultState {
            owner: self.owner,
            mint: self.mint,
            bump: bumps.vault_state,
            vault_bump: bumps.vault_token_account,
            lock_duration,
            unlock_time,
            total_deposited: 0,
        };
        Ok(VaultInitialized { owner: self.owner, mint: self.mint, unlock_time, lock_duration })
    }

    /// Creates the vault as of the cluster clock. The lock duration is
    /// checked before the clock is read; what follows is `initialize_at` at
    /// the time the clock reported.
    pub fn initialize(&mut self, bumps: &InitializeBumps, lock_duration: i64) -> (r: Result<
        VaultInitialized,
        InstructionError,
    >)
        ensures
            lock_duration < MIN_LOCK_DURATION ==> r matches Err(
                InstructionError::Vault(VaultError::LockDurationTooShort),
            ),
            MIN_LOCK_DURATION <= lock_duration && lock_duration > MAX_LOCK_DURATION ==> r matches Err(
                InstructionError::Vault(VaultError::LockDurationTooLong),
            ),
            r is Err ==> *final(self) == *old(self),
            r matches Err(InstructionError::Vault(e)) ==> exists|now: i64|
                #[trigger] initialize_rejection(lock_duration, now) == Some(e),
            r matches Ok(ev) ==> exists|now: i64|
                {
                    &&& #[trigger] initialize_rejection(lock_duration, now) is None
                    &&& ev == initialized_event(old(self).owner, old(self).mint, lock_duration, now)
                    &&& *final(self) == old(self).after_initialize(*bumps, lock_duration, now)
                },
            r is Ok ==> Self::created(*old(self), *final(self), *bumps, lock_duration, r->Ok_0),
    {
        if lock_duration < MIN_LOCK_DURATION {
            assert(initialize_rejection(lock_duration, 0) == Some(VaultError::LockDurationTooShort));
            return Err(InstructionError::Vault(VaultError::LockDurationTooShort));
        }
        if lock_duration > MAX_LOCK_DURATION {
            assert(initialize_rejection(lock_duration, 0) == Some(VaultError::LockDurationTooLong));
            return Err(InstructionError::Vault(VaultError::LockDurationTooLong));
        }
        let now = match current_unix_timestamp() {
            Ok(now) => now,
            Err(e) => {
                return Err(InstructionError::Runtime(e));
            },
        };
        match self.initialize_at(bumps, lock_duration, now) {
            Ok(ev) => Ok(ev),
            Err(e) => Err(InstructionError::Vault(e)),
        }
    }
}

} // verus!
