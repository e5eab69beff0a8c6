# veridex_oracle

Verified core of the Veridex prediction-market oracle (a Soroban contract on
Stellar): market creation, staking, resolution or voiding by the oracle
admin, and pro-rata claims.

- `src/state.rs`: market state, participant stake records (per outcome and
  total), contract configuration, and the invariants: one `i128` pool per
  outcome, non-negative pools that sum to the total, status consistent with
  the resolution fields; a record's entries sum to its total.
- `src/oracle.rs`: the operations, each with an exact contract over spec
  functions: what it gives back, and on which inputs it refuses with which
  error.
- `src/laws.rs`: properties across operations (single initialization,
  consecutive market ids, only the admin settles, settlement is final, a
  claim cannot be repeated, losing stakes are not paid, the books match the
  participants' records, all payouts together stay within the total
  stake and refunds return it, stored market ids are exactly the ids below
  the counter, and status only moves forward).
- `src/sdk.rs`: the Soroban SDK types the logic carries and the SDK vector
  calls it makes, with their trusted contracts.
- `app/lib.rs`: the Soroban contract itself: storage, ledger time,
  authorization and token transfers around the library.
