# clips_nft guards

Authorization guards for the clips NFT Soroban contract, verified with Verus.

- `src/` is the verified library: the administrator, caller, ownership and
  composed guards decide, from the contract's stored values and the caller's
  address (held as its strkey), whether an operation may proceed. Each public
  function's contract states its result for every input; the laws that tie
  the guards together are public proof functions beside them.
- `app/` is the Soroban side: it reads the administrator and token owners from
  contract storage, converts Soroban addresses to and from strkeys, calls the
  library, and asks the host for the caller's signature once a guard passes.
  It also holds the storage keys and the `#[contracterror]` error type, which
  need the SDK's macros.
- `tests/` runs the library on concrete values.
