use vstd::prelude::*;

use crate::clock::current_unix_timestamp;
use crate::error::{InstructionError, VaultError};
use crate::events::VaultClosed;
use crate::key::Pubkey;
use crate::state::{account_rejection, check_accounts, TokenAccount, VaultState};

verus! {

/// The accounts of the instruction that empties and closes an unlocked vault.
/// Moving `VaultClosed::token_returned` tokens to the owner's token account
/// (where it is not zero) and closing the accounts is left to the caller.
#[derive(Clone, Copy, Debug)]
pub struct Close {
    /// The signer.
    pub owner: Pubkey,
    pub vault_state: VaultState,
    /// Where the remaining tokens go.
    pub owner_token_account: TokenAccount,
    /// The vault's tokens.
    pub vault_token_account: TokenAccount,
}

impl Close {
    /// Why closing at unix time `now` is refused: the account constraints,
    /// then the lock.
    pub open spec fn rejection(self, now: i64) -> Option<VaultError> {
        match account_rejection(self.owner, self.vault_state, self.owner_token_account) {
            Some(e) => Some(e),
            None => {
                if self.vault_state.locked_at(now) {
                    Some(VaultError::VaultStillLocked)
                } else {
                    None
                }
            },
        }
    }

    /// The event of closing: everything the vault token account holds goes back.
    pub open spec fn closed_event(self) -> VaultClosed {
        VaultClosed { owner: self.owner, token_returned: self.vault_token_account.amount }
    }

    /// What holds of every accepted close, whatever the time, told directly in
    /// terms of the accounts and the event: the signer owns the vault and the
    /// token account of the vault's mint, and the whole balance of the vault
    /// token account goes back to the signer.
    pub open spec fn accepted_close(accounts: Close, ev: VaultClosed) -> bool {
        &&& accounts.vault_state.owner@ == accounts.owner@
        &&& accounts.owner_token_account.mint@ == accounts.vault_state.mint@
        &&& accounts.owner_token_account.owner@ == accounts.owner@
        &&& ev.owner == accounts.owner
        &&& ev.token_returned == accounts.vault_token_account.amount
    }

    /// Closes the vault as of unix time `now`.
    pub fn close_at(&self, now: i64) -> (r: Result<VaultClosed, VaultError>)
        ensures
            r == (match self.rejection(now) {
                Some(e) => Err::<VaultClosed, VaultError>(e),
                None => Ok(self.closed_event()),
            }),
            // the lock and the payout, told directly in terms of the inputs
            now < self.vault_state.unlock_time ==> r is Err,
            self.vault_state.owner@ == self.owner@ && self.owner_token_account.mint@
                == self.vault_state.mint@ && self.owner_token_account.owner@ == self.owner@ && now
                < self.vault_state.unlock_time ==> r == Err::<VaultClosed, VaultError>(
                VaultError::VaultStillLocked,
            ),
            r is Ok ==> now >= self.vault_state.unlock_time,
            r is Ok ==> Self::accepted_close(*self, r->Ok_0),
    {
        check_accounts(&self.owner, &self.vault_state, &self.owner_token_account)?;
        if now < self.vault_state.unlock_time {
            return Err(VaultError::VaultStillLocked);
        }
        Ok(VaultClosed { owner: self.owner, token_returned: self.vault_token_account.amount })
    }

    /// Closes the vault as of the cluster clock. The account constraints are
    /// checked before the clock is read; what follows is `close_at` at the
    /// time the clock reported. The accounts are left as they were.
    pub fn close(&mut self) -> (r: Result<VaultClosed, InstructionError>)
        ensures
            *final(self) == *old(self),
            account_rejection(old(self).owner, old(self).vault_state, old(self).owner_token_account)
                matches Some(e) ==> r == Err::<VaultClosed, InstructionError>(
                InstructionError::Vault(e),
            ),
            r matches Err(InstructionError::Vault(e)) ==> exists|now: i64|
                #[trigger] old(self).rejection(now) == Some(e),
            r matches Ok(ev) ==> ev == old(self).closed_event() && exists|now: i64|
                #[trigger] old(self).rejection(now) is None,
            // the refusals made before the clock is read, told directly
            old(self).vault_state.owner@ != old(self).owner@ ==> r matches Err(
                InstructionError::Vault(VaultError::Unauthorized),
            ),
            old(self).vault_state.owner@ == old(self).owner@ && old(self).owner_token_account.mint@
                != old(self).vault_state.mint@ ==> r matches Err(
                InstructionError::Vault(VaultError::MintMismatch),
            ),
            old(self).vault_state.owner@ == old(self).owner@ && old(self).owner_token_account.mint@
                == old(self).vault_state.mint@ && old(self).owner_token_account.owner@
                != old(self).owner@ ==> r matches Err(
                InstructionError::Vault(VaultError::Unauthorized),
            ),
            r is Ok ==> Self::accepted_close(*old(self), r->Ok_0),
    {
        match check_accounts(&self.owner, &self.vault_state, &self.owner_token_account) {
            Ok(()) => {},
            Err(e) => {
                assert(self.rejection(0) == Some(e));
                return Err(InstructionError::Vault(e));
            },
        }
        let now = match current_unix_timestamp() {
            Ok(now) => now,
            Err(e) => {
                return Err(InstructionError::Runtime(e));
            },
        };
        match self.close_at(now) {
            Ok(ev) => Ok(ev),
            Err(e) => Err(InstructionError::Vault(e)),
        }
    }
}

} // verus!
