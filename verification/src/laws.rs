//! Properties of the vault that span its instructions.

use vstd::prelude::*;

use crate::error::VaultError;
use crate::instructions::close::Close;
use crate::instructions::deposit::Deposit;
use crate::instructions::initialize::{
    initialize_rejection, initialized_event, initialized_state, InitializeBumps, MAX_LOCK_DURATION,
    MIN_LOCK_DURATION,
};
use crate::instructions::time_remaining::{remaining_time, time_remaining_result};
use crate::instructions::withdraw::Withdraw;
use crate::key::Pubkey;
use crate::state::{TokenAccount, VaultState};

verus! {

/// No tokens leave a locked vault: a withdrawal or a close that is not
/// refused happens at or after the unlock time, and one made by the vault's
/// owner from a token account of the owner in the vault's mint (and, for a
/// withdrawal, for a positive amount) is refused with `VaultStillLocked`
/// before the unlock time.
pub proof fn lemma_release_needs_unlock(w: Withdraw, amount: u64, c: Close, now: i64)
    ensures
        w.rejection(amount, now) is None ==> now >= w.vault_state.unlock_time,
        c.rejection(now) is None ==> now >= c.vault_state.unlock_time,
        w.vault_state.owner@ == w.owner@ && w.owner_token_account.mint@ == w.vault_state.mint@
            && w.owner_token_account.owner@ == w.owner@ && amount > 0 && now
            < w.vault_state.unlock_time ==> w.rejection(amount, now) == Some(
            VaultError::VaultStillLocked,
        ),
        c.vault_state.owner@ == c.owner@ && c.owner_token_account.mint@ == c.vault_state.mint@
            && c.owner_token_account.owner@ == c.owner@ && now < c.vault_state.unlock_time
            ==> c.rejection(now) == Some(VaultError::VaultStillLocked),
{
}

/// The time remaining is never negative, and it is zero exactly when the
/// unlock time has come.
pub proof fn lemma_no_time_remaining_iff_unlocked(state: VaultState, now: i64)
    ensures
        remaining_time(state.unlock_time, now) >= 0,
        remaining_time(state.unlock_time, now) == 0 <==> now >= state.unlock_time,
{
}

/// What the time-remaining instruction answers: zero from the unlock time
/// on, the seconds left before it, and `Overflow` exactly where the
/// difference does not fit in an `i64`.
pub proof fn lemma_time_remaining_answers(unlock_time: i64, now: i64)
    ensures
        i64::MIN <= unlock_time - now <= i64::MAX && now >= unlock_time ==> time_remaining_result(
            unlock_time,
            now,
        ) == Ok::<i64, VaultError>(0),
        unlock_time - now <= i64::MAX && now < unlock_time ==> time_remaining_result(
            unlock_time,
            now,
        ) == Ok::<i64, VaultError>((unlock_time - now) as i64),
        time_remaining_result(unlock_time, now) is Err <==> (unlock_time - now < i64::MIN
            || unlock_time - now > i64::MAX),
        time_remaining_result(unlock_time, now) is Err ==> time_remaining_result(unlock_time, now)
            == Err::<i64, VaultError>(VaultError::Overflow),
        time_remaining_result(unlock_time, now) matches Ok(t) ==> t + now >= unlock_time,
{
}

/// Asked later, the time remaining is never larger, and it drops by no more
/// than the time that passed.
pub proof fn lemma_time_remaining_counts_down(unlock_time: i64, earlier: i64, later: i64)
    requires
        earlier <= later,
        time_remaining_result(unlock_time, earlier) is Ok,
        time_remaining_result(unlock_time, later) is Ok,
    ensures
        time_remaining_result(unlock_time, later)->Ok_0 <= time_remaining_result(
            unlock_time,
            earlier,
        )->Ok_0,
        time_remaining_result(unlock_time, earlier)->Ok_0 - time_remaining_result(
            unlock_time,
            later,
        )->Ok_0 <= later - earlier,
{
}

/// A withdrawal is accepted exactly when the signer owns the vault and a
/// token account of its mint, the amount is positive, the unlock time has
/// come, and neither the vault's balance nor the deposit total falls short
/// of the amount. The event then reports the signer, the amount asked for,
/// and the new total, which is the old one less the amount; nothing else of
/// the vault changes.
pub proof fn lemma_withdrawal_accepted_when(w: Withdraw, amount: u64, now: i64)
    ensures
        w.rejection(amount, now) is None <==> {
            &&& w.vault_state.owner@ == w.owner@
            &&& w.owner_token_account.mint@ == w.vault_state.mint@
            &&& w.owner_token_account.owner@ == w.owner@
            &&& amount > 0
            &&& now >= w.vault_state.unlock_time
            &&& amount <= w.vault_token_account.amount
            &&& amount <= w.vault_state.total_deposited
        },
        w.rejection(amount, now) is None ==> Withdraw::accepted_withdrawal(
            w,
            w.after_withdraw(amount),
            amount,
            w.withdrawn_event(amount),
        ),
{
}

/// A deposit is accepted exactly when the signer owns the vault and a token
/// account of its mint, the amount is positive and the new total fits in a
/// `u64`; the time plays no part. The event then reports the signer, the
/// amount asked for and the new total, which is the old one plus the amount;
/// nothing else of the vault changes.
pub proof fn lemma_deposit_accepted_when(d: Deposit, amount: u64)
    ensures
        d.rejection(amount) is None <==> {
            &&& d.vault_state.owner@ == d.owner@
            &&& d.owner_token_account.mint@ == d.vault_state.mint@
            &&& d.owner_token_account.owner@ == d.owner@
            &&& amount > 0
            &&& d.vault_state.total_deposited + amount <= u64::MAX
        },
        d.rejection(amount) is None ==> {
            let ev = d.deposited_event(amount);
            let after = d.after_deposit(amount);
            &&& ev.owner == d.owner
            &&& ev.amount == amount
            &&& ev.total == d.vault_state.total_deposited + amount
            &&& after.vault_state.total_deposited == ev.total
            &&& after.vault_state.owner == d.vault_state.owner
            &&& after.vault_state.mint == d.vault_state.mint
            &&& after.vault_state.bump == d.vault_state.bump
            &&& after.vault_state.vault_bump == d.vault_state.vault_bump
            &&& after.vault_state.lock_duration == d.vault_state.lock_duration
            &&& after.vault_state.unlock_time == d.vault_state.unlock_time
            &&& after.owner == d.owner
            &&& after.owner_token_account == d.owner_token_account
            &&& after.vault_token_account == d.vault_token_account
        },
{
}

/// A close is accepted exactly when the signer owns the vault and a token
/// account of its mint and the unlock time has come; it then returns the
/// whole balance of the vault token account to the signer.
pub proof fn lemma_close_accepted_when(c: Close, now: i64)
    ensures
        c.rejection(now) is None <==> {
            &&& c.vault_state.owner@ == c.owner@
            &&& c.owner_token_account.mint@ == c.vault_state.mint@
            &&& c.owner_token_account.owner@ == c.owner@
            &&& now >= c.vault_state.unlock_time
        },
        c.closed_event().owner == c.owner,
        c.closed_event().token_returned == c.vault_token_account.amount,
{
}

/// A vault is created exactly when the lock lasts between 60 seconds and
/// four years of 365 days and the unlock time fits in an `i64`. It records
/// the signer as owner, the mint, the bumps it was given for the state and
/// for the token account (in that order), the lock duration, an unlock time
/// that many seconds after creation and an empty deposit total; the event
/// reports the same.
pub proof fn lemma_created_vault_records_inputs(
    owner: Pubkey,
    mint: Pubkey,
    bumps: InitializeBumps,
    lock_duration: i64,
    now: i64,
)
    ensures
        MIN_LOCK_DURATION == 60,
        MAX_LOCK_DURATION == 4 * 365 * 24 * 60 * 60,
        initialize_rejection(lock_duration, now) is None <==> {
            &&& 60 <= lock_duration <= 4 * 365 * 24 * 60 * 60
            &&& now + lock_duration <= i64::MAX
        },
        lock_duration < 60 ==> initialize_rejection(lock_duration, now) == Some(
            VaultError::LockDurationTooShort,
        ),
        lock_duration > 4 * 365 * 24 * 60 * 60 ==> initialize_rejection(lock_duration, now)
            == Some(VaultError::LockDurationTooLong),
        60 <= lock_duration <= 4 * 365 * 24 * 60 * 60 && now + lock_duration > i64::MAX
            ==> initialize_rejection(lock_duration, now) == Some(VaultError::Overflow),
        ({
            let s = initialized_state(owner, mint, bumps, lock_duration, now);
            let ev = initialized_event(owner, mint, lock_duration, now);
            initialize_rejection(lock_duration, now) is None ==> {
                &&& s.owner == owner
                &&& s.mint == mint
                &&& s.bump == bumps.vault_state
                &&& s.vault_bump == bumps.vault_token_account
                &&& s.lock_duration == lock_duration
                &&& s.unlock_time == now + lock_duration
                &&& s.total_deposited == 0
                &&& ev.owner == owner
                &&& ev.mint == mint
                &&& ev.lock_duration == lock_duration
                &&& ev.unlock_time == now + lock_duration
            }
        }),
{
}

/// Which refusal comes, told directly in terms of the inputs. For deposit,
/// withdraw and close alike: a signer who is not the vault's owner gets
/// `Unauthorized`; then a token account of another mint gets `MintMismatch`;
/// then a token account of someone else gets `Unauthorized`. With the
/// accounts in order, a withdrawal is refused for a zero amount, then for
/// the lock, then for the vault's balance, then for the deposit total; a
/// deposit for a zero amount, then for a total beyond `u64::MAX`.
pub proof fn lemma_refusals(d: Deposit, w: Withdraw, c: Close, amount: u64, now: i64)
    ensures
        d.vault_state.owner@ != d.owner@ ==> d.rejection(amount) == Some(VaultError::Unauthorized),
        d.vault_state.owner@ == d.owner@ && d.owner_token_account.mint@ != d.vault_state.mint@
            ==> d.rejection(amount) == Some(VaultError::MintMismatch),
        d.vault_state.owner@ == d.owner@ && d.owner_token_account.mint@ == d.vault_state.mint@
            && d.owner_token_account.owner@ != d.owner@ ==> d.rejection(amount) == Some(
            VaultError::Unauthorized,
        ),
        w.vault_state.owner@ != w.owner@ ==> w.rejection(amount, now) == Some(
            VaultError::Unauthorized,
        ),
        w.vault_state.owner@ == w.owner@ && w.owner_token_account.mint@ != w.vault_state.mint@
            ==> w.rejection(amount, now) == Some(VaultError::MintMismatch),
        w.vault_state.owner@ == w.owner@ && w.owner_token_account.mint@ == w.vault_state.mint@
            && w.owner_token_account.owner@ != w.owner@ ==> w.rejection(amount, now) == Some(
            VaultError::Unauthorized,
        ),
        c.vault_state.owner@ != c.owner@ ==> c.rejection(now) == Some(VaultError::Unauthorized),
        c.vault_state.owner@ == c.owner@ && c.owner_token_account.mint@ != c.vault_state.mint@
            ==> c.rejection(now) == Some(VaultError::MintMismatch),
        c.vault_state.owner@ == c.owner@ && c.owner_token_account.mint@ == c.vault_state.mint@
            && c.owner_token_account.owner@ != c.owner@ ==> c.rejection(now) == Some(
            VaultError::Unauthorized,
        ),
        ({
            let ok = w.vault_state.owner@ == w.owner@ && w.owner_token_account.mint@
                == w.vault_state.mint@ && w.owner_token_account.owner@ == w.owner@;
            &&& ok && amount == 0 ==> w.rejection(amount, now) == Some(VaultError::ZeroAmount)
            &&& ok && amount > 0 && now < w.vault_state.unlock_time ==> w.rejection(amount, now)
                == Some(VaultError::VaultStillLocked)
            &&& ok && amount > 0 && now >= w.vault_state.unlock_time && amount
                > w.vault_token_account.amount ==> w.rejection(amount, now) == Some(
                VaultError::InsufficientFunds,
            )
            &&& ok && amount > 0 && now >= w.vault_state.unlock_time && amount
                <= w.vault_token_account.amount && amount > w.vault_state.total_deposited
                ==> w.rejection(amount, now) == Some(VaultError::Overflow)
        }),
        ({
            let ok = d.vault_state.owner@ == d.owner@ && d.owner_token_account.mint@
                == d.vault_state.mint@ && d.owner_token_account.owner@ == d.owner@;
            &&& ok && amount == 0 ==> d.rejection(amount) == Some(VaultError::ZeroAmount)
            &&& ok && amount > 0 && d.vault_state.total_deposited + amount > u64::MAX
                ==> d.rejection(amount) == Some(VaultError::Overflow)
        }),
{
}

/// A vault created at `created` with lock `lock_duration` starts with the
/// whole duration remaining and an empty deposit total; from then on the
/// time remaining never exceeds the lock duration, and it is positive exactly
/// until `created + lock_duration`.
pub proof fn lemma_remaining_within_lock_duration(
    owner: Pubkey,
    mint: Pubkey,
    bumps: InitializeBumps,
    lock_duration: i64,
    created: i64,
    now: i64,
)
    requires
        initialize_rejection(lock_duration, created) is None,
        created <= now,
    ensures
        ({
            let state = initialized_state(owner, mint, bumps, lock_duration, created);
            &&& MIN_LOCK_DURATION <= lock_duration <= MAX_LOCK_DURATION
            &&& state.total_deposited == 0
            &&& remaining_time(state.unlock_time, created) == lock_duration
            &&& 0 <= remaining_time(state.unlock_time, now) <= lock_duration
            &&& remaining_time(state.unlock_time, now) > 0 <==> now < created + lock_duration
        }),
{
}

/// Once the vault is unlocked, withdrawing what was just deposited is
/// accepted (the vault token account holding at least that much) and brings
/// the vault state back to what it was before the deposit.
pub proof fn lemma_withdraw_undoes_deposit(
    d: Deposit,
    amount: u64,
    vault_token_account: TokenAccount,
    now: i64,
)
    requires
        d.rejection(amount) is None,
        !d.vault_state.locked_at(now),
        vault_token_account.amount >= amount,
    ensures
        ({
            let w = Withdraw {
                owner: d.owner,
                vault_state: d.after_deposit(amount).vault_state,
                owner_token_account: d.owner_token_account,
                vault_token_account,
            };
            &&& w.rejection(amount, now) is None
            &&& w.after_withdraw(amount).vault_state == d.vault_state
            &&& w.withdrawn_event(amount).remaining == d.vault_state.total_deposited
        }),
{
}

/// Deposits and withdrawals change the deposit total and nothing else of the
/// vault: its owner, mint, bumps, lock duration and unlock time stay as
/// they were set at creation.
pub proof fn lemma_terms_fixed(d: Deposit, w: Withdraw, amount: u64)
    ensures
        ({
            let before = d.vault_state;
            let after = d.after_deposit(amount).vault_state;
            &&& after.owner == before.owner && after.mint == before.mint
            &&& after.bump == before.bump && after.vault_bump == before.vault_bump
            &&& after.lock_duration == before.lock_duration
            &&& after.unlock_time == before.unlock_time
        }),
        ({
            let before = w.vault_state;
            let after = w.after_withdraw(amount).vault_state;
            &&& after.owner == before.owner && after.mint == before.mint
            &&& after.bump == before.bump && after.vault_bump == before.vault_bump
            &&& after.lock_duration == before.lock_duration
            &&& after.unlock_time == before.unlock_time
        }),
{
}

/// A signer who is not the vault's owner is refused with `Unauthorized` by
/// deposit, withdraw and close alike, whatever the amount and the time.
pub proof fn lemma_only_owner_moves_tokens(d: Deposit, w: Withdraw, c: Close, amount: u64, now: i64)
    requires
        d.owner@ != d.vault_state.owner@,
        w.owner@ != w.vault_state.owner@,
        c.owner@ != c.vault_state.owner@,
    ensures
        d.rejection(amount) == Some(VaultError::Unauthorized),
        w.rejection(amount, now) == Some(VaultError::Unauthorized),
        c.rejection(now) == Some(VaultError::Unauthorized),
{
}

/// An accepted withdrawal moves a positive amount that neither the vault
/// token account's balance nor the deposit total falls short of.
pub proof fn lemma_withdrawal_within_holdings(w: Withdraw, amount: u64, now: i64)
    requires
        w.rejection(amount, now) is None,
    ensures
        0 < amount <= w.vault_token_account.amount,
        amount <= w.vault_state.total_deposited,
        w.after_withdraw(amount).vault_state.total_deposited == w.vault_state.total_deposited - amount,
{
}

/// One instruction in the life of a vault after its creation: a deposit of
/// an amount, or a withdrawal of an amount at a unix time, each with the
/// accounts it reads.
pub enum VaultStep {
    Deposit(Deposit, u64),
    Withdraw(Withdraw, u64, i64),
}

impl VaultStep {
    /// The vault state the instruction reads.
    pub open spec fn reads(self) -> VaultState {
        match self {
            VaultStep::Deposit(d, _) => d.vault_state,
            VaultStep::Withdraw(w, _, _) => w.vault_state,
        }
    }

    /// Whether the instruction is accepted.
    pub open spec fn accepted(self) -> bool {
        match self {
            VaultStep::Deposit(d, amount) => d.rejection(amount) is None,
            VaultStep::Withdraw(w, amount, now) => w.rejection(amount, now) is None,
        }
    }

    /// The vault state the instruction leaves.
    pub open spec fn leaves(self) -> VaultState {
        match self {
            VaultStep::Deposit(d, amount) => d.after_deposit(amount).vault_state,
            VaultStep::Withdraw(w, amount, _) => w.after_withdraw(amount).vault_state,
        }
    }

    /// What the instruction adds to the vault: plus a deposit, minus a withdrawal.
    pub open spec fn net(self) -> int {
        match self {
            VaultStep::Deposit(_, amount) => amount as int,
            VaultStep::Withdraw(_, amount, _) => -(amount as int),
        }
    }
}

/// Whether `steps` are accepted one after the other, starting from `start`,
/// each reading the state that the one before left.
pub open spec fn is_run(start: VaultState, steps: Seq<VaultStep>) -> bool
    decreases steps.len(),
{
    if steps.len() == 0 {
        true
    } else {
        &&& steps[0].reads() == start
        &&& steps[0].accepted()
        &&& is_run(steps[0].leaves(), steps.drop_first())
    }
}

/// The vault state after `steps`, starting from `start`.
pub open spec fn run_end(start: VaultState, steps: Seq<VaultStep>) -> VaultState
    decreases steps.len(),
{
    if steps.len() == 0 {
        start
    } else {
        run_end(steps[0].leaves(), steps.drop_first())
    }
}

/// The sum of the deposits in `steps` minus the sum of the withdrawals.
pub open spec fn net_deposited(steps: Seq<VaultStep>) -> int
    decreases steps.len(),
{
    if steps.len() == 0 {
        0
    } else {
        steps[0].net() + net_deposited(steps.drop_first())
    }
}

/// One prefix of a run: the first `i` steps of a run form a run, and the
/// vault they leave holds the starting total plus their net deposits, with
/// its other fields as they started.
proof fn lemma_run_prefix(start: VaultState, steps: Seq<VaultStep>, i: int)
    requires
        is_run(start, steps),
        0 <= i <= steps.len(),
    ensures
        is_run(start, steps.take(i)),
        run_end(start, steps.take(i)).total_deposited == start.total_deposited + net_deposited(
            steps.take(i),
        ),
        run_end(start, steps.take(i)) == start.with_total(
            run_end(start, steps.take(i)).total_deposited,
        ),
    decreases steps.len(),
{
    let pre = steps.take(i);
    if i == 0 {
        assert(pre.len() == 0);
    } else {
        let next = steps[0].leaves();
        let rest = steps.drop_first();
        lemma_run_prefix(next, rest, i - 1);
        assert(pre[0] == steps[0]);
        assert(pre.drop_first() =~= rest.take(i - 1));
    }
}

/// After the first `i` steps of `steps`, starting from `start`: those steps
/// form a run, the deposit total is the starting total plus their deposits
/// minus their withdrawals, and the vault's other fields are as they started.
pub open spec fn accounted_after(start: VaultState, steps: Seq<VaultStep>, i: int) -> bool {
    let end = run_end(start, steps.take(i));
    &&& is_run(start, steps.take(i))
    &&& end.total_deposited == start.total_deposited + net_deposited(steps.take(i))
    &&& end.owner == start.owner
    &&& end.mint == start.mint
    &&& end.bump == start.bump
    &&& end.vault_bump == start.vault_bump
    &&& end.lock_duration == start.lock_duration
    &&& end.unlock_time == start.unlock_time
}

/// Over any run of accepted deposits and withdrawals, after every step, the
/// deposit total is the starting total plus the deposits minus the
/// withdrawals so far, and the vault's other fields are those it started with.
pub proof fn lemma_total_is_net_deposits(start: VaultState, steps: Seq<VaultStep>)
    requires
        is_run(start, steps),
    ensures
        forall|i: int| 0 <= i <= steps.len() ==> #[trigger] accounted_after(start, steps, i),
{
    assert forall|i: int| 0 <= i <= steps.len() implies #[trigger] accounted_after(
        start,
        steps,
        i,
    ) by {
        lemma_run_prefix(start, steps, i);
    }
}

/// For a vault created by `initialize`, whose deposit total starts at zero,
/// the total after any run of accepted deposits and withdrawals is exactly
/// the deposits minus the withdrawals, which is never negative.
pub proof fn lemma_fresh_vault_total_is_net_deposits(
    owner: Pubkey,
    mint: Pubkey,
    bumps: InitializeBumps,
    lock_duration: i64,
    created: i64,
    steps: Seq<VaultStep>,
)
    requires
        initialize_rejection(lock_duration, created) is None,
        is_run(initialized_state(owner, mint, bumps, lock_duration, created), steps),
    ensures
        ({
            let start = initialized_state(owner, mint, bumps, lock_duration, created);
            &&& run_end(start, steps).total_deposited == net_deposited(steps)
            &&& net_deposited(steps) >= 0
            &&& run_end(start, steps).unlock_time == created + lock_duration
        }),
{
    let start = initialized_state(owner, mint, bumps, lock_duration, created);
    lemma_run_prefix(start, steps, steps.len() as int);
    assert(steps.take(steps.len() as int) =~= steps);
}

} // verus!
