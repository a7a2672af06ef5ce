# escrow

The rules of a two-party token escrow, verified with Verus.

A maker deposits `amount` tokens of mint A into a vault held by an escrow
account and asks for `receive` tokens of mint B, until an expiry time. A taker
fulfils the offer before it expires: it pays the maker and receives the whole
vault. The maker may take its deposit back at any time.

- `src/` is the verified library: the escrow record (`state`), the escrow
  addresses and their derivation (`address`), the token calls the
  instructions order (`cpi`), the three instructions (`instructions::make`,
  `instructions::take`, `instructions::refund`), their errors (`error`), the
  clock (`clock`), and properties that span the instructions (`laws`).
- `app/` is the on-chain program: Anchor's account handling, and the token
  program calls that carry out what the library orders.
- `tests/` runs the instructions on concrete accounts and checks each rule.
