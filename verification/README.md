# dao_contracts

Verified decision logic of a set of DAO DAO CosmWasm contracts, written in
Verus.

- `src/` — the verified library:
  - `curves` — the power bonding curve's configuration and exponent checks;
  - `cw_abc`, `hatch_migration`, `token_setup` — the augmented bonding
    curve: the execute guard, instantiation checks, the migration plan, the
    batched reconstruction of the aggregate hatch contribution (with the law
    that repeated calls sum every hatcher exactly once) and the token setup
    that follows the issuer's instantiation (with a stable sort of the denom
    units);
  - `dao_abc_factory` — code approvals pinned to on-chain checksums, the
    authentication of the calling token-staked voting module, the writes
    and sub-message of a factory call, the reply's temporary state and the
    ownership handoff to the DAO;
  - `vote_hooks` — per-subscriber vote-hook dispatch with reply ids that are
    never reused;
  - `reply_data` — instantiation replies, read through `cw_utils`;
  - `gauge_adapter`, `budget_allocator`, `cosmos`, `decimal` — data model.
- `app/` — storage, queries, address validation, serialization and response
  assembly around the library, using the real CosmWasm crates.
- `tests/` — executable tests of the library.
