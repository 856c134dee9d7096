use vstd::prelude::*;

use crate::key::Pubkey;

verus! {

/// Emitted when a vault is created.
#[derive(Clone, Copy, Debug, PartialEq, Eq)]
pub struct VaultInitialized {
    pub owner: Pubkey,
    pub mint: Pubkey,
    pub unlock_time: i64,
    pub lock_duration: i64,
}

/// Emitted when tokens are deposited; `total` is the new deposit total.
#[derive(Clone, Copy, Debug, PartialEq, Eq)]
pub struct Deposited {
    pub owner: Pubkey,
    pub amount: u64,
    pub total: u64,
}

/// Emitted when tokens are withdrawn; `remaining` is the new deposit total.
#[derive(Clone, Copy, Debug, PartialEq, Eq)]
pub struct Withdrawn {
    pub owner: Pubkey,
    pub amount: u64,
    pub remaining: u64,
}

/// Emitted when a vault is closed; `token_returned` is what went back to the owner.
#[derive(Clone, Copy, Debug, PartialEq, Eq)]
pub struct VaultClosed {
    pub owner: Pubkey,
    pub token_returned: u64,
}

impl VaultClosed {
    /// The amount to move from the vault token account to the owner before
    /// it is closed; none when the vault is empty.
    pub fn tokens_to_return(&self) -> (t: Option<u64>)
        ensures
            t == (if self.token_returned > 0 {
                Some(self.token_returned)
            } else {
                None::<u64>
            }),
    {
        if self.token_returned > 0 {
            Some(self.token_returned)
        } else {
            None
        }
    }
}

} // verus!
