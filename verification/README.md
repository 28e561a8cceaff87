# globe_wallet

A multi-asset wallet contract for Soroban whose decisions are verified with Verus.

- Users register the assets they hold, at most 50 each.
- Per-asset daily spend limits cap what a stolen key can cost. The day is an
  86 400-second bucket of ledger time. Every payment counts, also one that was made
  before a limit was set that day.
- The admin role is handed on by proposal and acceptance. Upgrades of the code wait
  for a timelock.
- Guardians can recover the admin role by quorum and timelock, and the admin can
  cancel a recovery as long as the admin key still works.

## Layout

- `src/` is the verified library. `GlobeWallet` holds the ledger entries that a
  request reads or writes. Serving a request changes them and records, in order,
  what has to be done on the ledger: authorizations to demand, entries to write or
  delete, lifetimes to extend, code to replace, events to publish.
  - `model` states when each request is refused and what it does when it is served.
  - `wallet` is the implementation, proved against `model`.
  - `request`, `laws` and `soundness` state what holds of every request and of
    every history of requests.
  - `admin_laws`, `recovery_laws`, `asset_laws` and `spending_laws` state what each
    part of the wallet promises.
  - `host` is the boundary to `soroban_sdk`: everything that is believed of the SDK
    without proof stands there.
- `app/` is the contract itself. It has requests authorized, reads entries from the
  ledger, calls the library and carries out the effects.
- `tests/` runs the library on a real host.
