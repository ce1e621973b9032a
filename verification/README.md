# endcoin

Verified core of the Endcoin temperature-weighted AMM, a Solana program that
mints Endcoin and Gaiacoin according to the sea-surface temperature reported by
an oracle and prices swaps between them with temperature-dependent weights.

- `src/` is the library, checked by Verus: trading fees (`fee`), the integer
  square root behind liquidity (`liquidity`), the freshness and cooldown rules
  of every swap (`guards`), the decision of a swap given its floating-point
  pricing (`swap`), the oracle feed read (`oracle`), each
  instruction as a transition of plain account state (`instructions`),
  properties relating instructions (`laws`), account sizing (`utils`), and the
  calls into the Solana token and Switchboard crates with their contracts (`outside`).
- `app/` is the Anchor program around it: account validation, token transfers
  and mints, and the floating-point emission and
  weighted-pricing formulas.
- `tests/` exercises the library on concrete values.
