# ckbtc_management

A Verus library with the logic of the ckBTC minter's management canister
calls and the SNS init payload types.

- `src/der.rs`: `sec1_to_der`, proved to produce the DER encoding of a
  SEC1 ECDSA signature, together with the proofs that this encoding passes
  the strict (BIP 66) DER checks and decodes back to the signature's `r`
  and `s`.
- `src/call_error.rs`: `CallError`, `Reason` and the classification of
  rejected calls.
- `src/management.rs`: method names, cycle costs, and the paging step of
  `bitcoin_get_utxos`, with the proof that paging collects every UTXO in
  order.
- `src/sns_init.rs`: `SnsInitPayload` and its parts.
- `app/`: the async calls (through `ic-cdk`) and the copies of the SNS types
  that carry the Candid, serde and protobuf derives.
