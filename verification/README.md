# kiro_account_manager

The verified core of the Kiro account manager, written with Verus.

- `src/settings.rs` — the application settings, their defaults, and how a
  partial update is laid over them (with its laws: an empty update changes
  nothing, updates are idempotent and compose).
- `src/usage_history.rs` — the daily usage journal: recording a day, sorting
  by date (stable), keeping the most recent thirty days; laws on sortedness,
  size, uniqueness of dates and idempotence.
- `src/machine_guid/` — machine identifiers: their format, the macOS logic
  (stored identifier, hardware UUID from `ioreg`, telemetry identifiers and
  the update of Kiro's `storage.json`), random version-4 identifiers, and the
  refusal on unsupported platforms.
- `src/deep_link.rs` — deep-link URLs, event payloads, routes and the
  logging decisions taken at start-up.
- `src/protocol.rs` — the Windows registration of the URL schemes.
- `src/text.rs` — character-level helpers.

`app/` holds what stays outside the proofs: files, the registry, `ioreg`,
the async commands and the serialisable copies of the records.
