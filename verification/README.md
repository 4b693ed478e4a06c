# escrow_contract

A token escrow program for Solana, with its decisions verified in Verus.

A **maker** offers `amount` tokens of mint A for `recieve` tokens of mint B:
`make` records the offer in a program-derived escrow account at
`["escrow", maker, seed]` and locks the tokens in the escrow's associated token
account (the vault). A **taker** completes the offer with `take`: it pays the
maker `recieve` tokens of mint B, receives the whole vault, and the vault and
escrow are closed into the maker. With `refund` the maker cancels the offer and
gets the vault back.

## Layout

- `src/` — the verified library.
  - `address.rs`, `programs.rs` — 32-byte addresses and the well-known program ids.
  - `pda.rs` — program-derived addresses. The two calls into
    `Pubkey::create_program_address` / `Pubkey::try_find_program_address`
    are the only trusted items; associated token addresses are derived from them.
  - `state.rs` — the escrow record and its seeds.
  - `accounts.rs` — what an instruction sees of its accounts, and each account
    check (signer, owner, program id, `mut`, `has_one`, seeds, associated token
    account, duplicates, creation of a new account) with its error.
  - `instructions/` — `make`, `take`, `refund`: the account checks in the order
    they are made (`try_accounts`) and the instruction bodies, which return the
    token-program calls to make (`cpi.rs`).
  - `escrow_contract.rs` — each instruction: checks, then body.
  - `ledger.rs`, `laws.rs` — the documented effect of the token calls on token
    balances and lamports, and the proved properties of the program over it:
    what `make` locks, how `take` and `refund` settle (all or nothing, rent to
    the maker), and that no mint's supply changes.
- `tests/` — the end-to-end scenarios and unit tests, run against the real
  address derivations.
- `app/` — the Anchor program: account loading, entry points, and performing
  the token-program calls that the library returns.

## Notes on behaviour

- `make` creates the escrow and the vault: both must still be missing, and
  the vault must be at the escrow's associated address for mint A.
- `take` creates the taker's and maker's associated token accounts when they
  are missing (at their associated addresses) and accepts them when they
  exist; the vault is writable.
- The token calls go to the SPL Token program.
