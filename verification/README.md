# utility_contracts

Verified billing, metering and pricing logic for prepaid utility streams on
Stellar (Soroban) and ink!, written in Verus.

- `src/` — the library, every function proved against its contract:
  - `price_oracle` — an admin-appointed updater publishes the XLM price;
    freshness checks and XLM/cents conversions.
  - `continuous_flow` — streams paid per second from a main balance with a
    separate pre-paid buffer; withdrawals reach the main balance only.
  - `energy_grid` — time-of-use billing with a peak multiplier and an
    off-peak discount.
  - `multi_sensor` — per-account aggregation of the latest payloads of
    linked sensors.
  - `sep40_streaming` — stream rates derived from an exchange-rate oracle.
  - `tamper_detection` — freezing a tampered device's funds into escrow.
  - `auto_refill` — threshold-triggered refills from a backup vault.
  - `arith`, `address` — saturating/truncating `i128` arithmetic and
    account identities.
- `app/` — the on-chain entry points: Soroban storage, signatures and events,
  and the ink! auto-refill contract, around the library.
- `tests/` — tests of the library on concrete values.
