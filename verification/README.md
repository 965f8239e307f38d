# wordcel

The decision logic of the wordcel Solana program, verified with Verus.

- `src/` is the library. `accounts` holds the account data and its load/store
  forms, `handlers` the per-request checks and state updates, `instructions`
  the four instructions as functions from accounts and arguments to an answer
  and the new accounts, `laws` the properties proved across them, and `util`
  the small helpers the handlers share.
- `app/` is the Anchor program around it: account layouts with Anchor's
  serialisation, the account constraints, and the entry points, which read the
  accounts, call the library and write the accounts back.
- `tests/` runs the library on concrete requests.
