# anchor_amm

A constant-product automated market maker for Solana, written as an Anchor
program. Its rules are a Verus library under `src/`; the Anchor program under
`app/` reads the accounts, hands their values to the library, and performs the
token transfers the library decides on.

## Layout

- `src/key.rs` — account addresses as 32 bytes and their lexicographic order.
- `src/math.rs` — the floor square root and floor-division facts.
- `src/quote.rs` — pricing of deposits, withdrawals and swaps.
- `src/state.rs` — the AMM and pool configurations and their validity.
- `src/instructions/` — one context and `handler` per instruction.
- `src/laws.rs` — properties across inputs and calls: the reserves' product
  never falls in a swap, deposits and withdrawals never dilute LP holders,
  round trips never profit, a higher fee never pays more, pausing blocks
  trading but not withdrawals, and handing administration on moves control.
- `app/` — the Anchor program: account constraints, storage and CPIs.
- `tests/` — the program's scenarios, run against the library.
