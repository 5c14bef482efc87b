# stake_program

The instruction dispatch of the stake program, verified with Verus: given an
invocation (its keyed accounts, the cached sysvars, the active features) and
its instruction data, it decides which operation the stake account is to
undergo, with which accounts, sysvars, authorities and signers, or with which
error the instruction is refused.

- `src/model.rs`: the values the dispatch reads and hands on.
- `src/pubkey.rs`: account addresses.
- `src/ids.rs`: the addresses of the stake program, its config, the sysvars and
  the features, taken from `solana-sdk`.
- `src/config.rs`: the stake config held in the stake config account's data,
  read with `solana-config-program` and `bincode`.
- `src/decode.rs`: decoding of instruction data with `solana-sdk`.
- `src/instruction_account_indices.rs`: where each instruction expects its accounts.
- `src/context.rs`: account lookups, sysvar reads with their account checks,
  feature lookups, signer collection.
- `src/operation.rs`: the operations the dispatch yields.
- `src/processor.rs`: `process_instruction` (raw data), `dispatch_instruction`
  (decoded instruction) and their specification `dispatch`.
- `src/laws.rs`: properties of `dispatch` over all invocations.
- `app/lib.rs`: reads an invocation out of the runtime's `InvokeContext`.
