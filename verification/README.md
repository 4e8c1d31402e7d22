# paystell

Verified logic of two Soroban smart contracts: a payment processor
(merchants, signed payment orders with nonces and fees, batches,
multi-signature payments, refunds, pausing, payment history queries) and an
upgradeable proxy (multisig-governed upgrade proposals with a delay,
implementation history and rollback, safety checks, migrations, monitoring,
documentation and checklists).

## Layout

- `src/` — the library, verified with Verus.
  - `table.rs`: `Table`, a map kept as key-ordered entries, whose model is
    a `Map`; the keys and values of the contracts' storage.
  - `address.rs`: addresses, held as the bytes of their string form.
  - `payment/`: the payment contract. `contract.rs` holds its entry points,
    each running on a `ContractEnv` (ledger time, stored state, and the
    authorizations, token transfers, merchant signature checks and events
    the call asks for);
    `storage.rs`, `types.rs`, `history.rs` (statistics, buckets, sorting,
    pagination), `helper.rs`, `error.rs`, `events.rs`; `laws.rs` states the
    properties that span entry points.
  - `proxy/`: the proxy contract, laid out the same way, with a `ProxyEnv`
    that also carries the calls into implementations; the schema versions
    and the compatibility declarations that implementations report are
    handed in by the host.
- `tests/` — tests of the library on concrete values.
- `app/` — the contracts on the Soroban host: they load the stored state,
  run the library's entry points, and carry out the authorizations, token
  transfers, signature checks, events and contract calls they ask for.
