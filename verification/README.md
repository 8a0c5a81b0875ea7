# falt_escrow

An escrow program for Solana. A buyer creates a deal, deposits lamports into
it, a seller accepts it, and either party releases the funds to the other,
less a commission; the buyer may take an unaccepted deal back, and may take
any deal back once enough time has passed since the deposit.

- `src/` is the verified library: the account model (`data`), the checks
  (`access`), the commission split (`helper`), what each instruction does to
  an escrow (`model`, stated over plain values, and `program`, which carries
  it out), and the properties proved of it (`laws`). Addresses and
  cross-program instructions are `solana_program`'s own types (`keys`, `cpi`).
- `app/` is the on-chain program around it: account validation, reading the
  clock, invoking the system program and moving lamports between accounts.
- `tests/` runs the library on concrete deals.
