# q3x_backend

The verified core of a multi-signature wallet backend for the Internet
Computer that also holds funds on EVM chains.

- `src/` is the library, proved with Verus:
  - `text`: decimal rendering and character helpers;
  - `hexcodec`: hexadecimal text through the `hex` crate;
  - `crypto`: Keccak-256, SHA-224 and CRC-32 through their crates, EVM
    addresses, principals and ledger account identifiers;
  - `evm`: RPC providers per chain, known tokens, `balanceOf` call data,
    recipients and signed legacy transactions;
  - `json`: JSON-RPC request texts and reply members through `serde_json`;
  - `balances`: native, token and ICP balances and the portfolio;
  - `ledger`: ICP ledger transfers;
  - `batch`: batch validation, proposal messages and the batch run that
    executes each transfer in turn.
- `app/` holds the canister side: Candid types, inter-canister calls and the
  async drivers that feed outcomes back into the library.
- `tests/` exercises the library on concrete values.
