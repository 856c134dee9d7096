# time_locked_vault

A token vault that holds one owner's tokens of one mint until an unlock time.
Deposits are taken at any time; withdrawals and closing the vault only once
the lock has expired.

- `src/` is the verified library (Verus): the vault state, the account
  checks, and each instruction as a function from the accounts it reads (and
  the time) to the new state and the event to emit, with its contract.
  `src/laws.rs` states and proves the properties that span instructions.
  The cluster clock is read through `anchor_lang`'s `Clock` sysvar.
- `app/` is the on-chain program around it, written against `anchor_lang`
  and `anchor_spl` in Anchor's wire format: instruction dispatch, account
  reading and program-address checks, account creation and closing, the
  token-program transfers, and event logs.
- `tests/` runs the library on concrete vaults.
