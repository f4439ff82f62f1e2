# payment_streams

A stake-backed lamport streaming program. A sender opens a stream that pays a
receiver `amount_second` lamports per second between `start_time` and
`end_time`; the funds sit in a stake account delegated by the program. The
receiver withdraws what has streamed (after the stake is unstaked), and the
sender closes the stream.

The stream record holds twelve fields, in this order: `end_time`,
`start_time`, `amount_second`, `to`, `from`, `lamports_withdrawn`,
`is_active`, `is_delegated`, `stake_account`, `delegate_time`,
`vote_right_to`, `seed`. The instructions read and write all twelve; the
order of the last five, and holding the seed as its UTF-8 bytes (stored as a
length-prefixed string), are this crate's choice. The fixed part before the
seed is 170 bytes.

Layout:

- `src/` — the verified library (Verus):
  - `payment_stream.rs`: the stored stream record and its byte format
    (fields in order, little-endian integers, one-byte booleans, 32-byte
    addresses, the seed as a 4-byte length and its UTF-8 bytes), with proofs
    that writing and reading are inverse.
  - `accounting.rs`: the amounts streamed and withdrawable at a given time.
  - `create_stream.rs`, `withdraw.rs`, `unstake_token.rs`, `close_stream.rs`:
    each instruction as a function from what it reads (account flags and
    keys, balances, account and instruction bytes, sysvars) to what it does
    (the record to store, the lamports to move) or the error it returns, with
    the order of its checks stated in a spec function.
  - `instruction.rs`: the leading tag byte of an instruction.
  - `laws.rs`: properties across instructions (accounting invariant, a
    closed stream stays closed, stored records read back).
  - `history.rs`: runs of instructions on one account; a withdrawal needs an
    unstake since the stake was last delegated.
- `app/` — the entrypoint: account iteration, sysvar reads, stake-program
  invocations and account writes, around the library's decisions.
- `tests/` — scenarios on concrete values, including a comparison of the record
  format with borsh's encoding of the same fields.
