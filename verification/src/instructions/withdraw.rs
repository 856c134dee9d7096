use vstd::prelude::*;

use crate::clock::current_unix_timestamp;
use crate::error::{InstructionError, VaultError};
use crate::events::Withdrawn;
use crate::key::Pubkey;
use crate::state::{account_rejection, check_accounts, TokenAccount, VaultState};

verus! {

/// The accounts of the instruction that takes tokens out of an unlocked vault.
/// The token transfer itself, of `Withdrawn::amount` from the vault token
/// account to the owner's, is left to the caller.
#[derive(Clone, Copy, Debug)]
pub struct Withdraw {
    /// The signer.
    pub owner: Pubkey,
    pub vault_state: VaultState,
    /// Where the tokens go.
    pub owner_token_account: TokenAccount,
    /// Where the tokens come from.
    pub vault_token_account: TokenAccount,
}

impl Withdraw {
    /// Why withdrawing `amount` at unix time `now` is refused, checked in this
    /// order: the account constraints, a zero amount, the lock, the vault's
    /// balance, and the deposit total, which cannot go below zero.
    pub open spec fn rejection(self, amount: u64, now: i64) -> Option<VaultError> {
        match account_rejection(self.owner, self.vault_state, self.owner_token_account) {
            Some(e) => Some(e),
            None => {
                if amount == 0 {
                    Some(VaultError::ZeroAmount)
                } else if self.vault_state.locked_at(now) {
                    Some(VaultError::VaultStillLocked)
                } else if self.vault_token_account.amount < amount {
                    Some(VaultError::InsufficientFunds)
                } else if self.vault_state.total_deposited < amount {
                    Some(VaultError::Overflow)
                } else {
                    None
                }
            },
        }
    }

    /// The accounts after withdrawing `amount`: the deposit total drops by it.
    pub open spec fn after_withdraw(self, amount: u64) -> Withdraw {
        Withdraw {
            vault_state: self.vault_state.with_total((self.vault_state.total_deposited - amount) as u64),
            ..self
        }
    }

    /// The event of withdrawing `amount`.
    pub open spec fn withdrawn_event(self, amount: u64) -> Withdrawn {
        Withdrawn {
            owner: self.owner,
            amount,
            remaining: (self.vault_state.total_deposited - amount) as u64,
        }
    }

    /// What holds of every accepted withdrawal of `amount`, whatever the time,
    /// told directly in terms of the accounts before and after and the
    /// event: the signer owns the vault and the token account of the vault's
    /// mint; a positive amount that neither the vault's balance nor the
    /// deposit total falls short of leaves, the total drops by it, and nothing
    /// else changes.
    pub open spec fn accepted_withdrawal(
        before: Withdraw,
        after: Withdraw,
        amount: u64,
        ev: Withdrawn,
    ) -> bool {
        &&& before.vault_state.owner@ == before.owner@
        &&& before.owner_token_account.mint@ == before.vault_state.mint@
        &&& before.owner_token_account.owner@ == before.owner@
        &&& 0 < amount <= before.vault_token_account.amount
        &&& amount <= before.vault_state.total_deposited
        &&& ev.owner == before.owner
        &&& ev.amount == amount
        &&& after.vault_state.total_deposited == before.vault_state.total_deposited - amount
        &&& ev.remaining == after.vault_state.total_deposited
        &&& after.vault_state.owner == before.vault_state.owner
        &&& after.vault_state.mint == before.vault_state.mint
        &&& after.vault_state.bump == before.vault_state.bump
        &&& after.vault_state.vault_bump == before.vault_state.vault_bump
        &&& after.vault_state.lock_duration == before.vault_state.lock_duration
        &&& after.vault_state.unlock_time == before.vault_state.unlock_time
        &&& after.owner == before.owner
        &&& after.owner_token_account == before.owner_token_account
        &&& after.vault_token_account == before.vault_token_account
    }

    /// Withdraws `amount` as of unix time `now`.
    pub fn withdraw_at(&mut self, amount: u64, now: i64) -> (r: Result<Withdrawn, VaultError>)
        ensures
            match old(self).rejection(amount, now) {
                Some(e) => r == Err::<Withdrawn, VaultError>(e) && *final(self) == *old(self),
                None => {
                    &&& r == Ok::<Withdrawn, VaultError>(old(self).withdrawn_event(amount))
                    &&& *final(self) == old(self).after_withdraw(amount)
                },
            },
            // the lock, told directly in terms of the inputs
            now < old(self).vault_state.unlock_time ==> r is Err,
            old(self).vault_state.owner@ == old(self).owner@
                && old(self).owner_token_account.mint@ == old(self).vault_state.mint@
                && old(self).owner_token_account.owner@ == old(self).owner@ && amount > 0 && now
                < old(self).vault_state.unlock_time ==> r == Err::<Withdrawn, VaultError>(
                VaultError::VaultStillLocked,
            ),
            r is Ok ==> now >= old(self).vault_state.unlock_time,
            r is Ok ==> Self::accepted_withdrawal(*old(self), *final(self), amount, r->Ok_0),
            r is Err ==> *final(self) == *old(self),
    {
        check_accounts(&self.owner, &self.vault_state, &self.owner_token_account)?;
        if amount == 0 {
            return Err(VaultError::ZeroAmount);
        }
        if now < self.vault_state.unlock_time {
            return Err(VaultError::VaultStillLocked);
        }
        if self.vault_token_account.amount < amount {
            return Err(VaultError::InsufficientFunds);
        }
        let remaining = match self.vault_state.total_deposited.checked_sub(amount) {
            Some(t) => t,
            None => {
                return Err(VaultError::Overflow);
            },
        };
        self.vault_state.total_deposited = remaining;
        Ok(Withdrawn { owner: self.owner, amount, remaining })
    }

    /// Withdraws `amount` as of the cluster clock. The account constraints
    /// and the amount are checked before the clock is read; what follows is
    /// `withdraw_at` at the time the clock reported.
    pub fn withdraw(&mut self, amount: u64) -> (r: Result<Withdrawn, InstructionError>)
        ensures
            account_rejection(old(self).owner, old(self).vault_state, old(self).owner_token_account)
                matches Some(e) ==> r == Err::<Withdrawn, InstructionError>(
                InstructionError::Vault(e),
            ),
            account_rejection(old(self).owner, old(self).vault_state, old(self).owner_token_account)
                is None && amount == 0 ==> r matches Err(
                InstructionError::Vault(VaultError::ZeroAmount),
            ),
            r is Err ==> *final(self) == *old(self),
            // the refusals made before the clock is read, told directly
            old(self).vault_state.owner@ != old(self).owner@ ==> r matches Err(
                InstructionError::Vault(VaultError::Unauthorized),
            ),
            old(self).vault_state.owner@ == old(self).owner@ && old(self).owner_token_account.mint@
                != old(self).vault_state.mint@ ==> r matches Err(
                InstructionError::Vault(VaultError::MintMismatch),
            ),
            old(self).vault_state.owner@ == old(self).owner@ && old(self).owner_token_account.mint@
                == old(self).vault_state.mint@ && old(self).owner_token_account.owner@
                != old(self).owner@ ==> r matches Err(
                InstructionError::Vault(VaultError::Unauthorized),
            ),
            r is Ok ==> Self::accepted_withdrawal(*old(self), *final(self), amount, r->Ok_0),
            r matches Err(InstructionError::Vault(e)) ==> exists|now: i64|
                #[trigger] old(self).rejection(amount, now) == Some(e),
            r matches Ok(ev) ==> exists|now: i64|
                {
                    &&& #[trigger] old(self).rejection(amount, now) is None
                    &&& ev == old(self).withdrawn_event(amount)
                    &&& *final(self) == old(self).after_withdraw(amount)
                },
    {
        match check_accounts(&self.owner, &self.vault_state, &self.owner_token_account) {
            Ok(()) => {},
            Err(e) => {
                assert(self.rejection(amount, 0) == Some(e));
                return Err(InstructionError::Vault(e));
            },
        }
        if amount == 0 {
            assert(self.rejection(amount, 0) == Some(VaultError::ZeroAmount));
            return Err(InstructionError::Vault(VaultError::ZeroAmount));
        }
        let now = match current_unix_timestamp() {
            Ok(now) => now,
            Err(e) => {
                return Err(InstructionError::Runtime(e));
            },
        };
        match self.withdraw_at(amount, now) {
            Ok(ev) => Ok(ev),
            Err(e) => Err(InstructionError::Vault(e)),
        }
    }
}

} // verus!
