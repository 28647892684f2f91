# soroban_guard

Verified models of a suite of Soroban smart contracts: a set of contracts that
each carry a known weakness (`src/vulnerable/`), most beside a corrected
version, and a set of hardened contracts (`src/secure/`).

Each contract is a Rust struct holding its ledger storage as plain values.
An entry point is a method that takes the invocation context
(`host::Env`: the ledger sequence, the contract's own address, and what the
call asks of the host: authorizations, token transfers, events and storage
lifetime extensions) and either
commits a new state or returns an `Error`, leaving the state as it was, as a
failed invocation leaves the ledger. Every entry point carries a Verus
contract that states its result and its effect exactly; the invariants and
multi-call properties the contracts promise are stated as `ensures` clauses
or as `law_*` proof functions next to the code they concern.

Layout:

- `src/table.rs`: a small key-value table with a map view, standing in for
  contract storage.
- `src/host.rs`: addresses (kind and 32-byte id), events, storage lifetime
  extensions, the invocation context and the shared `Error`.
- `src/ledger.rs`: balance moves between accounts and their conservation law.
- `src/math.rs`: powers of ten and truncating division.
- `src/secure/`, `src/vulnerable/`: the contracts. Where a contract calls
  another contract whose code it does not know (the capped vaults of
  `vulnerable::deposit_cap_wrong_amount` call whatever token they accept),
  that contract is a trait (`Token`) and the caller is proved for every
  implementation of it.
- `tests/`: scenarios on concrete values, one file per contract.
- `app/`: hosting on a real Soroban ledger: converting addresses, building
  the context from a Soroban `Env`, performing the requested authorizations,
  transfers, events and lifetime extensions, and turning a refusal into the
  panic that reverts the invocation.

The library calls `soroban-sdk` in two places, both in the Merkle airdrop
(`secure::secure_airdrop`) and each behind a trusted wrapper whose result is
named: the SHA-256 digest (`sha256_of`), and the XDR encoding of an address,
whose bytes `xdr_of` states; a claimant's leaf is built from both.
