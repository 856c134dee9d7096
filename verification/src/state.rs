use vstd::prelude::*;

use crate::error::VaultError;
use crate::key::Pubkey;

verus! {

/// What a vault records about itself.
#[derive(Clone, Copy, Debug)]
pub struct VaultState {
    /// The only account that may deposit into, withdraw from or close the vault.
    pub owner: Pubkey,
    /// The mint of the tokens the vault holds.
    pub mint: Pubkey,
    /// Bump of the vault state's program address.
    pub bump: u8,
    /// Bump of the vault token account's program address.
    pub vault_bump: u8,
    /// The lock duration chosen at initialization, in seconds.
    pub lock_duration: i64,
    /// Unix time from which the vault may be emptied.
    pub unlock_time: i64,
    /// Tokens deposited and not yet withdrawn.
    pub total_deposited: u64,
}

/// What the vault logic reads of a token account.
#[derive(Clone, Copy, Debug)]
pub struct TokenAccount {
    /// The mint of the tokens the account holds.
    pub mint: Pubkey,
    /// The account's authority.
    pub owner: Pubkey,
    /// The token balance.
    pub amount: u64,
}

impl VaultState {
    /// Whether the lock still holds at unix time `now`.
    pub open spec fn locked_at(self, now: i64) -> bool {
        now < self.unlock_time
    }

    /// The same vault with another deposit total; nothing else differs.
    pub open spec fn with_total(self, total: u64) -> VaultState {
        VaultState { total_deposited: total, ..self }
    }
}

/// The error that the account constraints shared by deposit, withdraw and
/// close raise, checked in order: the vault belongs to the signer, the
/// signer's token account holds the vault's mint, and it belongs to the signer.
pub open spec fn account_rejection(
    signer: Pubkey,
    state: VaultState,
    owner_token: TokenAccount,
) -> Option<VaultError> {
    if state.owner@ != signer@ {
        Some(VaultError::Unauthorized)
    } else if owner_token.mint@ != state.mint@ {
        Some(VaultError::MintMismatch)
    } else if owner_token.owner@ != signer@ {
        Some(VaultError::Unauthorized)
    } else {
        None
    }
}

/// Checks the account constraints of deposit, withdraw and close.
pub fn check_accounts(
    signer: &Pubkey,
    state: &VaultState,
    owner_token: &TokenAccount,
) -> (r: Result<(), VaultError>)
    ensures
        r == (match account_rejection(*signer, *state, *owner_token) {
            Some(e) => Err(e),
            None => Ok(()),
        }),
{
    if !state.owner.same_as(signer) {
        return Err(VaultError::Unauthorized);
    }
    if !owner_token.mint.same_as(&state.mint) {
        return Err(VaultError::MintMismatch);
    }
    if !owner_token.owner.same_as(signer) {
        return Err(VaultError::Unauthorized);
    }
    Ok(())
}

} // verus!
