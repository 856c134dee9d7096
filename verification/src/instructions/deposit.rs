use vstd::prelude::*;

use crate::error::VaultError;
use crate::events::Deposited;
use crate::key::Pubkey;
use crate::state::{account_rejection, check_accounts, TokenAccount, VaultState};

verus! {

/// The accounts of the instruction that puts tokens into a vault, locked or
/// not. The token transfer itself, of `Deposited::amount` from the owner's
/// token account to the vault token account, is left to the caller.
#[derive(Clone, Copy, Debug)]
pub struct Deposit {
    /// The signer.
    pub owner: Pubkey,
    pub vault_state: VaultState,
    /// Where the tokens come from.
    pub owner_token_account: TokenAccount,
    /// Where the tokens go.
    pub vault_token_account: TokenAccount,
}

impl Deposit {
    /// Why depositing `amount` is refused, checked in this order: the account
    /// constraints, a zero amount, and a deposit total beyond `u64::MAX`.
    /// The time plays no part: deposits are taken while the vault is locked.
    pub open spec fn rejection(self, amount: u64) -> Option<VaultError> {
        match account_rejection(self.owner, self.vault_state, self.owner_token_account) {
            Some(e) => Some(e),
            None => {
                if amount == 0 {
                    Some(VaultError::ZeroAmount)
                } else if self.vault_state.total_deposited + amount > u64::MAX {
                    Some(VaultError::Overflow)
                } else {
                    None
                }
            },
        }
    }

    /// The accounts after depositing `amount`: the deposit total grows by it.
    pub open spec fn after_deposit(self, amount: u64) -> Deposit {
        Deposit {
            vault_state: self.vault_state.with_total((self.vault_state.total_deposited + amount) as u64),
            ..self
        }
    }

    /// The event of depositing `amount`.
    pub open spec fn deposited_event(self, amount: u64) -> Deposited {
        Deposited {
            owner: self.owner,
            amount,
            total: (self.vault_state.total_deposited + amount) as u64,
        }
    }

    /// Deposits `amount`.
    pub fn deposit(&mut self, amount: u64) -> (r: Result<Deposited, VaultError>)
        ensures
            match old(self).rejection(amount) {
                Some(e) => r == Err::<Deposited, VaultError>(e) && *final(self) == *old(self),
                None => {
                    &&& r == Ok::<Deposited, VaultError>(old(self).deposited_event(amount))
                    &&& *final(self) == old(self).after_deposit(amount)
                },
            },
            // an accepted deposit, told directly in terms of the inputs
            r is Ok ==> {
                &&& old(self).vault_state.owner@ == old(self).owner@
                &&& old(self).owner_token_account.mint@ == old(self).vault_state.mint@
                &&& old(self).owner_token_account.owner@ == old(self).owner@
                &&& amount > 0
            },
            r matches Ok(ev) ==> {
                &&& ev.owner == old(self).owner
                &&& ev.amount == amount
                &&& final(self).vault_state.total_deposited == old(self).vault_state.total_deposited
                    + amount
                &&& ev.total == final(self).vault_state.total_deposited
                &&& final(self).vault_state.owner == old(self).vault_state.owner
                &&& final(self).vault_state.mint == old(self).vault_state.mint
                &&& final(self).vault_state.bump == old(self).vault_state.bump
                &&& final(self).vault_state.vault_bump == old(self).vault_state.vault_bump
                &&& final(self).vault_state.lock_duration == old(self).vault_state.lock_duration
                &&& final(self).vault_state.unlock_time == old(self).vault_state.unlock_time
                &&& final(self).owner == old(self).owner
                &&& final(self).owner_token_account == old(self).owner_token_account
                &&& final(self).vault_token_account == old(self).vault_token_account
            },
            r is Err ==> *final(self) == *old(self),
    {
        check_accounts(&self.owner, &self.vault_state, &self.owner_token_account)?;
        if amount == 0 {
            return Err(VaultError::ZeroAmount);
        }
        let total = match self.vault_state.total_deposited.checked_add(amount) {
            Some(t) => t,
            None => {
                return Err(VaultError::Overflow);
            },
        };
        self.vault_state.total_deposited = total;
        Ok(Deposited { owner: self.owner, amount, total })
    }
}

} // verus!
