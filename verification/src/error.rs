use vstd::prelude::*;

verus! {

/// The errors by which the vault refuses an instruction.
#[derive(Clone, Copy, Debug, PartialEq, Eq, Structural)]
pub enum VaultError {
    Unauthorized,
    ZeroAmount,
    VaultStillLocked,
    InsufficientFunds,
    MintMismatch,
    LockDurationTooShort,
    LockDurationTooLong,
    Overflow,
}

/// The message shown for each error.
pub open spec fn error_message(e: VaultError) -> Seq<char> {
    match e {
        VaultError::Unauthorized => "You are not the owner of this vault"@,
        VaultError::ZeroAmount => "Amount must be greater than zero"@,
        VaultError::VaultStillLocked => "Vault is still locked - unlock time has not passed"@,
        VaultError::InsufficientFunds => "Insufficient tokens in vault"@,
        VaultError::MintMismatch => "Token mint does not match this vault"@,
        VaultError::LockDurationTooShort => "Lock duration is too short (minimum 60 seconds)"@,
        VaultError::LockDurationTooLong => "Lock duration is too long (maximum 4 years)"@,
        VaultError::Overflow => "Arithmetic Overflow"@,
    }
}

impl VaultError {
    /// The message shown for this error.
    pub fn message(&self) -> (m: &'static str)
        ensures
            m@ == error_message(*self),
    {
        match self {
            VaultError::Unauthorized => "You are not the owner of this vault",
            VaultError::ZeroAmount => "Amount must be greater than zero",
            VaultError::VaultStillLocked => "Vault is still locked - unlock time has not passed",
            VaultError::InsufficientFunds => "Insufficient tokens in vault",
            VaultError::MintMismatch => "Token mint does not match this vault",
            VaultError::LockDurationTooShort => "Lock duration is too short (minimum 60 seconds)",
            VaultError::LockDurationTooLong => "Lock duration is too long (maximum 4 years)",
            VaultError::Overflow => "Arithmetic Overflow",
        }
    }
}

/// Why an instruction that reads the cluster clock failed: the vault refused
/// it, or the runtime could not supply the clock.
#[derive(Debug)]
pub enum InstructionError {
    Vault(VaultError),
    Runtime(anchor_lang::prelude::ProgramError),
}

} // verus!
