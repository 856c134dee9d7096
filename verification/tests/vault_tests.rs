use time_locked_vault::{
    Close, Deposit, Initialize, InitializeBumps, InstructionError, Pubkey, TimeRemaining,
    TokenAccount, VaultError, VaultState, Withdraw, MAX_LOCK_DURATION,
};

const LOCK_DURATION: i64 = 60;
const TOKEN_AMOUNT: u64 = 1_000_000;
const NOW: i64 = 1_700_000_000;

fn key(b: u8) -> Pubkey {
    Pubkey::new([b; 32])
}

fn owner() -> Pubkey {
    key(1)
}

fn mint() -> Pubkey {
    key(2)
}

fn blank_state() -> VaultState {
    VaultState {
        owner: key(0),
        mint: key(0),
        bump: 0,
        vault_bump: 0,
        lock_duration: 0,
        unlock_time: 0,
        total_deposited: 0,
    }
}

fn bumps() -> InitializeBumps {
    InitializeBumps { vault_state: 254, vault_token_account: 253 }
}

/// A vault created at `NOW` with the test lock duration.
fn new_vault() -> VaultState {
    let mut ix = Initialize { owner: owner(), mint: mint(), vault_state: blank_state() };
    ix.initialize_at(&bumps(), LOCK_DURATION, NOW).unwrap();
    ix.vault_state
}

fn token_account(owner: Pubkey, amount: u64) -> TokenAccount {
    TokenAccount { mint: mint(), owner, amount }
}

fn deposit_ix(state: VaultState) -> Deposit {
    Deposit {
        owner: owner(),
        vault_state: state,
        owner_token_account: token_account(owner(), TOKEN_AMOUNT),
        vault_token_account: token_account(key(9), 0),
    }
}

/// A vault holding `TOKEN_AMOUNT`, deposited right after creation.
fn funded_vault() -> VaultState {
    let mut ix = deposit_ix(new_vault());
    ix.deposit(TOKEN_AMOUNT).unwrap();
    ix.vault_state
}

fn withdraw_ix(state: VaultState, signer: Pubkey, vault_balance: u64) -> Withdraw {
    Withdraw {
        owner: signer,
        vault_state: state,
        owner_token_account: token_account(signer, 0),
        vault_token_account: token_account(key(9), vault_balance),
    }
}

fn close_ix(state: VaultState, vault_balance: u64) -> Close {
    Close {
        owner: owner(),
        vault_state: state,
        owner_token_account: token_account(owner(), 0),
        vault_token_account: token_account(key(9), vault_balance),
    }
}

// ── initialize ────────────────────────────────────────────────────────────────

#[test]
fn test_initialize() {
    let mut ix = Initialize { owner: owner(), mint: mint(), vault_state: blank_state() };
    let event = ix.initialize_at(&bumps(), LOCK_DURATION, NOW).unwrap();
    let state = ix.vault_state;
    assert_eq!(state.owner, owner());
    assert_eq!(state.mint, mint());
    assert_eq!(state.lock_duration, LOCK_DURATION);
    assert!(state.unlock_time > 0);
    assert!(state.bump > 0);
    assert!(state.vault_bump > 0);
    assert_eq!(state.unlock_time, NOW + LOCK_DURATION);
    assert_eq!(state.total_deposited, 0);
    assert_eq!(event.unlock_time, NOW + LOCK_DURATION);
    assert_eq!(event.lock_duration, LOCK_DURATION);
    assert_eq!(event.owner, owner());
    assert_eq!(event.mint, mint());
}

#[test]
fn test_initialize_lock_too_short_fails() {
    let mut ix = Initialize { owner: owner(), mint: mint(), vault_state: blank_state() };
    assert_eq!(ix.initialize_at(&bumps(), 30, NOW), Err(VaultError::LockDurationTooShort));
    assert_eq!(ix.vault_state.unlock_time, 0);
}

#[test]
fn initialize_lock_too_long_fails() {
    let mut ix = Initialize { owner: owner(), mint: mint(), vault_state: blank_state() };
    assert_eq!(
        ix.initialize_at(&bumps(), MAX_LOCK_DURATION + 1, NOW),
        Err(VaultError::LockDurationTooLong)
    );
    assert!(ix.initialize_at(&bumps(), MAX_LOCK_DURATION, NOW).is_ok());
    assert_eq!(MAX_LOCK_DURATION, 126_144_000);
}

#[test]
fn initialize_unlock_time_overflow_fails() {
    let mut ix = Initialize { owner: owner(), mint: mint(), vault_state: blank_state() };
    assert_eq!(
        ix.initialize_at(&bumps(), LOCK_DURATION, i64::MAX - 59),
        Err(VaultError::Overflow)
    );
    assert!(ix.initialize_at(&bumps(), LOCK_DURATION, i64::MAX - 60).is_ok());
    assert_eq!(ix.vault_state.unlock_time, i64::MAX);
}

// ── deposit ───────────────────────────────────────────────────────────────────

#[test]
fn test_deposit() {
    let mut ix = deposit_ix(new_vault());
    let event = ix.deposit(TOKEN_AMOUNT).unwrap();
    assert_eq!(event.amount, TOKEN_AMOUNT);
    assert_eq!(event.total, TOKEN_AMOUNT);
    assert_eq!(ix.vault_state.total_deposited, TOKEN_AMOUNT);
}

#[test]
fn test_deposit_zero_fails() {
    let mut ix = deposit_ix(new_vault());
    assert_eq!(ix.deposit(0), Err(VaultError::ZeroAmount));
    assert_eq!(ix.vault_state.total_deposited, 0);
}

#[test]
fn test_deposit_while_locked_succeeds() {
    let state = new_vault();
    assert!(state.unlock_time > NOW);
    let mut ix = deposit_ix(state);
    assert!(ix.deposit(TOKEN_AMOUNT).is_ok());
}

#[test]
fn deposit_total_overflow_fails() {
    let mut state = new_vault();
    state.total_deposited = u64::MAX;
    let mut ix = deposit_ix(state);
    assert_eq!(ix.deposit(1), Err(VaultError::Overflow));
    assert_eq!(ix.vault_state.total_deposited, u64::MAX);
}

#[test]
fn deposit_from_foreign_mint_fails() {
    let mut ix = deposit_ix(new_vault());
    ix.owner_token_account.mint = key(7);
    assert_eq!(ix.deposit(TOKEN_AMOUNT), Err(VaultError::MintMismatch));
}

#[test]
fn deposit_from_token_account_of_another_fails() {
    let mut ix = deposit_ix(new_vault());
    ix.owner_token_account.owner = key(7);
    assert_eq!(ix.deposit(TOKEN_AMOUNT), Err(VaultError::Unauthorized));
}

// ── withdraw ──────────────────────────────────────────────────────────────────

#[test]
fn test_withdraw_before_unlock_fails() {
    let mut ix = withdraw_ix(funded_vault(), owner(), TOKEN_AMOUNT);
    assert_eq!(ix.withdraw_at(TOKEN_AMOUNT, NOW), Err(VaultError::VaultStillLocked));
    assert_eq!(
        ix.withdraw_at(TOKEN_AMOUNT, NOW + LOCK_DURATION - 1),
        Err(VaultError::VaultStillLocked)
    );
    assert_eq!(ix.vault_state.total_deposited, TOKEN_AMOUNT);
}

#[test]
fn test_withdraw_after_unlock_succeeds() {
    let state = funded_vault();
    let mut ix = withdraw_ix(state, owner(), TOKEN_AMOUNT);
    let event = ix.withdraw_at(TOKEN_AMOUNT, state.unlock_time + 1).unwrap();
    assert_eq!(event.amount, TOKEN_AMOUNT);
    assert_eq!(event.remaining, 0);
    assert_eq!(event.owner, owner());
    assert_eq!(ix.vault_state.total_deposited, 0);
}

#[test]
fn test_withdraw_overdraft_fails() {
    let state = funded_vault();
    let mut ix = withdraw_ix(state, owner(), TOKEN_AMOUNT);
    assert_eq!(
        ix.withdraw_at(TOKEN_AMOUNT * 999, state.unlock_time + 1),
        Err(VaultError::InsufficientFunds)
    );
}

#[test]
fn test_withdraw_unauthorized_fails() {
    let state = funded_vault();
    let attacker = key(5);
    let mut ix = withdraw_ix(state, attacker, TOKEN_AMOUNT);
    assert_eq!(ix.withdraw_at(TOKEN_AMOUNT, state.unlock_time + 1), Err(VaultError::Unauthorized));
    assert_eq!(ix.vault_state.total_deposited, TOKEN_AMOUNT);
}

#[test]
fn withdraw_zero_fails() {
    let state = funded_vault();
    let mut ix = withdraw_ix(state, owner(), TOKEN_AMOUNT);
    assert_eq!(ix.withdraw_at(0, state.unlock_time + 1), Err(VaultError::ZeroAmount));
}

#[test]
fn withdraw_beyond_deposit_total_fails() {
    // The vault token account holds more than was deposited through the vault.
    let state = funded_vault();
    let mut ix = withdraw_ix(state, owner(), TOKEN_AMOUNT * 2);
    assert_eq!(
        ix.withdraw_at(TOKEN_AMOUNT + 1, state.unlock_time + 1),
        Err(VaultError::Overflow)
    );
    assert_eq!(ix.vault_state.total_deposited, TOKEN_AMOUNT);
}

#[test]
fn withdraw_in_parts_counts_down() {
    let state = funded_vault();
    let mut ix = withdraw_ix(state, owner(), TOKEN_AMOUNT);
    let first = ix.withdraw_at(400_000, state.unlock_time).unwrap();
    assert_eq!(first.remaining, 600_000);
    ix.vault_token_account.amount -= first.amount;
    let second = ix.withdraw_at(600_000, state.unlock_time).unwrap();
    assert_eq!(second.remaining, 0);
}

#[test]
fn withdraw_undoes_deposit() {
    let before = new_vault();
    let mut dep = deposit_ix(before);
    dep.deposit(250).unwrap();
    let mut wd = withdraw_ix(dep.vault_state, owner(), 250);
    wd.withdraw_at(250, before.unlock_time).unwrap();
    assert_eq!(wd.vault_state.total_deposited, before.total_deposited);
    assert_eq!(wd.vault_state.unlock_time, before.unlock_time);
    assert_eq!(wd.vault_state.owner, before.owner);
    assert_eq!(wd.vault_state.mint, before.mint);
    assert_eq!(wd.vault_state.lock_duration, before.lock_duration);
}

#[test]
fn total_tracks_deposits_minus_withdrawals() {
    let state = new_vault();
    let unlock = state.unlock_time;
    let mut balance: u64 = 0;
    let mut net: i128 = 0;
    let mut current = state;
    let steps: [(bool, u64); 6] =
        [(true, 500), (true, 300), (false, 200), (true, 50), (false, 600), (false, 50)];
    for (is_deposit, amount) in steps {
        if is_deposit {
            let mut ix = deposit_ix(current);
            ix.deposit(amount).unwrap();
            current = ix.vault_state;
            balance += amount;
            net += amount as i128;
        } else {
            let mut ix = withdraw_ix(current, owner(), balance);
            ix.withdraw_at(amount, unlock).unwrap();
            current = ix.vault_state;
            balance -= amount;
            net -= amount as i128;
        }
        assert_eq!(current.total_deposited as i128, net);
        assert_eq!(current.unlock_time, unlock);
    }
    assert_eq!(current.total_deposited, 0);
}

// ── close ─────────────────────────────────────────────────────────────────────

#[test]
fn test_close_before_unlock_fails() {
    let ix = close_ix(new_vault(), 0);
    assert_eq!(ix.close_at(NOW), Err(VaultError::VaultStillLocked));
}

#[test]
fn test_close_after_unlock_succeeds() {
    let state = funded_vault();
    let ix = close_ix(state, TOKEN_AMOUNT);
    let event = ix.close_at(state.unlock_time + 1).unwrap();
    assert_eq!(event.token_returned, TOKEN_AMOUNT);
    assert_eq!(event.owner, owner());
}

#[test]
fn close_by_another_fails() {
    let state = funded_vault();
    let mut ix = close_ix(state, TOKEN_AMOUNT);
    ix.owner = key(5);
    ix.owner_token_account.owner = key(5);
    assert_eq!(ix.close_at(state.unlock_time + 1), Err(VaultError::Unauthorized));
}

#[test]
fn close_empty_vault_returns_nothing() {
    let state = new_vault();
    let ix = close_ix(state, 0);
    let event = ix.close_at(state.unlock_time).unwrap();
    assert_eq!(event.token_returned, 0);
    assert_eq!(event.tokens_to_return(), None);
    let full = close_ix(funded_vault(), TOKEN_AMOUNT).close_at(state.unlock_time).unwrap();
    assert_eq!(full.tokens_to_return(), Some(TOKEN_AMOUNT));
}

// ── time_remaining ────────────────────────────────────────────────────────────

#[test]
fn test_time_remaining_while_locked() {
    let ix = TimeRemaining { vault_state: new_vault() };
    let remaining = ix.time_remaining_at(NOW).unwrap();
    assert!(remaining > 0, "expected time remaining > 0 while locked, got {remaining}");
    assert!(remaining <= LOCK_DURATION, "time remaining exceeds lock duration");
    assert_eq!(ix.time_remaining_at(NOW + 15), Ok(45));
}

#[test]
fn test_time_remaining_after_unlock() {
    let state = new_vault();
    let ix = TimeRemaining { vault_state: state };
    let remaining = ix.time_remaining_at(state.unlock_time + 1).unwrap();
    assert_eq!(remaining, 0, "expected 0 after unlock, got {remaining}");
    assert_eq!(ix.time_remaining_at(state.unlock_time), Ok(0));
}

#[test]
fn time_remaining_difference_overflow() {
    let mut state = new_vault();
    state.unlock_time = i64::MAX;
    let ix = TimeRemaining { vault_state: state };
    assert_eq!(ix.time_remaining_at(-1), Err(VaultError::Overflow));
    assert_eq!(ix.time_remaining_at(0), Ok(i64::MAX));
    state.unlock_time = i64::MIN;
    let ix = TimeRemaining { vault_state: state };
    assert_eq!(ix.time_remaining_at(1), Err(VaultError::Overflow));
    assert_eq!(ix.time_remaining_at(0), Ok(0));
}

// ── the cluster clock ─────────────────────────────────────────────────────────

// Off-chain the runtime has no clock sysvar, so the instructions that read it
// report the runtime's error once the checks before the read have passed.
#[test]
fn clock_unavailable_off_chain() {
    let mut init = Initialize { owner: owner(), mint: mint(), vault_state: blank_state() };
    assert!(matches!(init.initialize(&bumps(), LOCK_DURATION), Err(InstructionError::Runtime(_))));
    assert!(matches!(
        init.initialize(&bumps(), 30),
        Err(InstructionError::Vault(VaultError::LockDurationTooShort))
    ));

    let state = funded_vault();
    let mut wd = withdraw_ix(state, owner(), TOKEN_AMOUNT);
    assert!(matches!(wd.withdraw(TOKEN_AMOUNT), Err(InstructionError::Runtime(_))));
    assert!(matches!(wd.withdraw(0), Err(InstructionError::Vault(VaultError::ZeroAmount))));
    assert_eq!(wd.vault_state.total_deposited, TOKEN_AMOUNT);

    let mut cl = close_ix(state, TOKEN_AMOUNT);
    assert!(matches!(cl.close(), Err(InstructionError::Runtime(_))));
    cl.owner = key(5);
    assert!(matches!(cl.close(), Err(InstructionError::Vault(VaultError::Unauthorized))));

    let tr = TimeRemaining { vault_state: state };
    assert!(matches!(tr.time_remaining(), Err(InstructionError::Runtime(_))));
}

// ── keys and messages ─────────────────────────────────────────────────────────

#[test]
fn keys_compare_byte_for_byte() {
    let mut bytes = [3u8; 32];
    let a = Pubkey::new(bytes);
    bytes[31] = 4;
    let b = Pubkey::new(bytes);
    assert!(a.same_as(&a));
    assert!(!a.same_as(&b));
    assert!(b.same_as(&Pubkey::new(bytes)));
}

#[test]
fn error_messages() {
    assert_eq!(VaultError::Unauthorized.message(), "You are not the owner of this vault");
    assert_eq!(VaultError::ZeroAmount.message(), "Amount must be greater than zero");
    assert_eq!(
        VaultError::VaultStillLocked.message(),
        "Vault is still locked - unlock time has not passed"
    );
    assert_eq!(VaultError::InsufficientFunds.message(), "Insufficient tokens in vault");
    assert_eq!(VaultError::MintMismatch.message(), "Token mint does not match this vault");
    assert_eq!(
        VaultError::LockDurationTooShort.message(),
        "Lock duration is too short (minimum 60 seconds)"
    );
    assert_eq!(
        VaultError::LockDurationTooLong.message(),
        "Lock duration is too long (maximum 4 years)"
    );
    assert_eq!(VaultError::Overflow.message(), "Arithmetic Overflow");
}
