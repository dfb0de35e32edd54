# manual_seal

A sealing engine for development chains: it makes a block when it is told to
(manual seal) or whenever a transaction enters the pool (instant seal), imports
the block as a final one, and finalizes blocks on command. With it come the
block-author API, the extrinsics of a small transfer chain, and a chain API for
exercising a transaction pool.

The library under `src/` is written in Verus; every function states what it does
and is proved to do it.

- `engine`: the engine as a state machine; `engine_laws`: what holds of all of
  its runs
- `consensus`: block import, the engine's import worker, verifier and queue
- `author`: the calls of the author API, for any pool;
  `transaction_format`: how its extrinsics are read, written and hashed
- `extrinsic`, `hashing`, `keyring`: transfers, their SCALE encoding, hashes and
  signatures
- `test_api`: the chain API and signed test transfers
- `contract_rounds`: the rounds of the contract preparation benchmark

`app/` is ordinary Rust: it awaits commands and calls the services that the
engine and the author API ask for.

What is taken on trust:

- the wrappers around `parity-scale-codec`, `blake2-rfc` and `schnorrkel`; each
  says in its doc comment what it claims
- that implementations of `ExtrinsicCodec`, `TransactionHash`, `BlockImport` and
  `Modifier` outside of `src/` keep the contracts of these traits; the last two
  promise nothing unless an implementation says more
