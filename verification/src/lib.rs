//! A time-locked token vault: an owner locks tokens of one mint until an
//! unlock time; deposits are accepted at any time, withdrawals and closing
//! only once the lock has expired.

mod clock;
pub mod error;
pub mod events;
pub mod instructions;
pub mod key;
pub mod laws;
pub mod state;

pub use error::{InstructionError, VaultError};
pub use events::{Deposited, VaultClosed, VaultInitialized, Withdrawn};
pub use instructions::close::Close;
pub use instructions::deposit::Deposit;
pub use instructions::initialize::{
    Initialize, InitializeBumps, MAX_LOCK_DURATION, MIN_LOCK_DURATION,
};
pub use instructions::time_remaining::TimeRemaining;
pub use instructions::withdraw::Withdraw;
pub use key::Pubkey;
pub use state::{TokenAccount, VaultState};
