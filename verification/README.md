# inverse_arena

The Inverse Arena contracts for Soroban, with their game rules verified in Verus.

## Layout

- `src/` — the verified library. Every contract is a plain state machine over
  numbered accounts (`ids::AccountId`), symbols and code hashes:
  - `arena.rs`: joining at the required stake, rounds with ledger deadlines,
    one choice per surviving player and round, round resolution (the minority
    side survives, a tie is broken by a random value the caller supplies),
    winner designation and the one-time prize claim in a finished game,
    pausing and the 48-hour upgrade timelock; `arena_laws.rs` states the
    properties that span several calls. `bounds.rs` holds the caps a deployed
    arena enforces and the lower caps unit tests run arenas with.
  - `factory.rs`: pool creation by the admin or whitelisted hosts under stake,
    capacity and currency rules, dense pool numbering, pagination, schema
    migration and the upgrade timelock; `factory_laws.rs`.
  - `payout.rs`: winnings recorded once per (context, pool, round, winner) and
    even prize splits with the remainder to the treasury; `payout_laws.rs`.
  - `staking.rs`: share accounting for deposits and redemptions;
    `staking_laws.rs`.
  - `invariants.rs`: the round-state checks;
    `table.rs`: the association list the contracts store their records in.
  Each contract has a `snapshot`/`restore` pair so that its whole state can be
  kept between calls.
- `app/` — the Soroban contracts themselves: they load the state from ledger
  storage, let the library decide, store the result, and then perform what the
  decision calls for (authorisation, token transfers, arena deployment, code
  upgrades and events).
- `tests/` — scenario tests of the library.
