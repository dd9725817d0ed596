# ancore_account

The verified core of a smart account for Stellar/Soroban, written in Verus. An account has an
owner, a nonce that every executed transaction uses up, and session keys that may act for the owner
within their permissions until they expire.

- `src/` is the library. `account.rs` holds the operations; `policy.rs` the rules that they apply,
  on plain values; `model.rs` what each operation answers and leaves in the ledger, as mathematical
  functions; `laws.rs` what is proved of the account as a whole, over any number of calls.
  `ledger.rs` names what a running call sees of the ledger, and `host.rs` holds the calls into
  `soroban_sdk` with what is trusted of them. These are the only claims that are not proved.
- `app/` is the contract around the library: its entry points and the types that they take.
- `tests/` calls the library as a contract in the test host of `soroban_sdk`.

The library and the contract build for the native host only, not for wasm: an address goes in and
out of the host through its XDR form, and `soroban_sdk` offers that conversion off wasm alone.
