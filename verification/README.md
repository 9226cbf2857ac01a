# archguard

Verified logic of the two Archguard contracts, which keep Soroban contract
storage alive by watching and extending its TTL:

- `src/registry/` — the watch-list: orgs register, then add, change and
  remove watched entries. `rules.rs` holds the decision of each entry point
  over the storage cells it reads; `contract.rs` holds the whole storage as
  one value (`RegistryContract`) with the entry points; `state.rs` and
  `laws.rs` state the invariant that every entry point keeps and the laws
  that relate them.
- `src/extender/` — custody of prepaid XLM balances and the extension costs
  that the keeper charges against them, laid out the same way.
- `src/account.rs` — addresses as strkey bytes, and a map keyed by them.
- `app/` — the contracts on a Soroban ledger: storage, auth, the ledger
  clock, token transfers and events around the library's decisions.
