# escrow

A token escrow for over-the-counter trades on Solana. A bidder sets up an
offer for a pair of tokens, makes it live by depositing the offered tokens,
may edit its amounts, and a seller accepts it in part or in whole.

- `src/` is the verified library (Verus): the offer state, the checks and
  state changes of each instruction, the token transfers and events each one
  asks for, and the seeds and program-derived addresses of the accounts.
  `src/laws.rs` holds the properties proved across instructions.
- `app/` is the Anchor program around it: account validation, reading the
  accounts into plain values, the fee computed from the floating-point fee
  rate, the token-program transfers and the emitted events.
- `tests/` runs the library on concrete values and compares its addresses
  with those of the key and metadata libraries.
