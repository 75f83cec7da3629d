# fundraising_program

Verified settlement logic for sealed-bid, uniform-price token sales on Solana, in three
variants that share the arithmetic and hashing:

- `src/timelock/`: bids are committed as `sha256(max_fdv || salt)`, revealed with a drand
  Quicknet beacon, priced by a proposed clearing FDV and fill rate, and verified bid by bid.
- `src/mpc/`: bids stay encrypted; an MPC cluster keeps demand buckets and computes the
  clearing bucket (`circuits.rs` states that computation), and each bid is then checked
  against the clearing bucket.
- `src/rollup/`: bids are written inside an ephemeral rollup and allocated there by the
  settlement terms, their maximum FDV erased before they leave it.

`src/math.rs`, `src/merkle.rs`, `src/hashing.rs` and `src/pubkey.rs` hold what the three
share. Each instruction handler takes the accounts it reads as plain values and states, in
its contract, the exact error it returns for each input (in the order the checks run) and
the accounts it writes on success. Proof functions named `law_*` state properties that span
calls or hold of every input.

`app/` is the timelock auction as an Anchor program: it loads and stores accounts, reads
the clock and moves tokens around the library's handlers.
