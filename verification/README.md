# sportsbook

A token-settled sports betting program, split in two:

- `src/` — the verified library (Verus). It holds the account records
  (`State`, `Bet`, `UserBet`), the account sets each instruction receives
  (`contexts`), and every instruction as a function from those accounts to
  the new account contents plus the token movement to perform
  (`sportsbook`). Each instruction's contract is a spec function in the same
  module; `laws` proves properties that span instructions (who may change
  settings, how the admin role is handed over, how a bet is settled, how the
  pot follows the vault, what a winner is paid).
- `app/` — the on-chain glue: account validation, the cross-program
  invocations that create the vault and move tokens, and writing the
  records back, around calls into the library.

Instructions that move tokens and then look at the result come in two
steps: the first checks and returns the transfer to make; the second
(`*_finish`) takes the vault's data after the transfer.
