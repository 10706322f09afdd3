# cyper_v0

The rules of a prediction-market protocol on Solana, verified with Verus.

- `src/` is the verified library. `protocol.rs` holds the three instructions
  (setting up the protocol account, opening a market, placing a bet) as
  transitions over the accounts, each with a contract that says exactly which
  error it returns and how every account changes; `laws.rs` proves what holds
  across instructions and over any run of requests, accepted or refused (market
  and bet indices in call order, liquidity equal to the sum of accepted stakes and,
  in an Accuracy market, to the fixed price times the bet count, and the market
  rules that every market keeps). `types.rs`
  holds the accounts, `key.rs` account addresses, `error.rs` the error codes, and
  `state.rs` with `instructions/` the accounts in their first layout.
- `app/` is the Anchor program around it: account validation, reading the clock,
  storing accounts and the token transfers that the rules ask for.
- `tests/` runs the library on concrete values.
