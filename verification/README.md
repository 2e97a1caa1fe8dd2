# simulation

A Monte Carlo simulator for a sharded constant-product market maker
(`cpmm_rebalansing`): simulated users and arbitrage bots trade against the
program's vaults inside LiteSVM while a geometric Brownian motion drives the
external price.

- `src/` is the verified library: fee tiers, swap and arbitrage bookkeeping,
  the optimal-amount search, instruction data and account layouts, address
  derivation, registry decoding, configuration checks, the study's scenarios
  and the checks on its output files. Calls into `sha2`, `rand` and
  `solana-sdk` stand behind small trusted wrappers whose contracts say what
  the library relies on.
- `tests/` runs the library on concrete values.
- `app/` holds what cannot be verified: the LiteSVM context and program
  calls, the random actors and the floating-point market, CSV output,
  logging and the command-line programs.
