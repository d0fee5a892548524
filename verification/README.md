# mato_onchain_sdk

The verified core of a Solana game-item marketplace program.

- `src/` is the library, verified with Verus. Each instruction of the
  program is a function from the accounts it reads (held as plain values:
  addresses as 32 bytes, token accounts as address, mint, owner and balance)
  to a `Plan`: the token-program calls to make, in order, and how the
  instruction ends. Account records, their byte layout and the space
  allotted to them, the error codes, and the signer seeds of the project's
  escrows are here too. `src/execution.rs` decides, call by call, which
  call comes next, how the instruction ends once a call fails or all
  succeed, and whether the records it wrote are kept. `src/laws.rs` states the properties that span
  instructions.
- `app/` is the on-chain program built on the Anchor framework: account
  validation, conversion between the framework's types and the library's,
  and the token-program calls, made one by one as `src/execution.rs` directs.
- `tests/` runs the library on concrete accounts.
