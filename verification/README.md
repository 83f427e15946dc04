# ukx

`ukx` is the source-fact layer for the Bank of England data source
(`source_id = uk_cb`): the S01–S11 source registry, the six key IADB codes, the
S07 yield-curve routing rule, the planned schedule, an offline parser for the CSV
and JSON exchange forms, and a fail-closed authorization decision. It has no
network access of any kind.

The library is written in Verus: every function states its behaviour in a
`requires` / `ensures` contract, and Verus proves each body against it, except
three trusted functions whose contracts are taken on trust: `json::read_json` and
its converting helper `json_tree` (the call into serde_json), and
`text::string_of` (std's `collect` of characters into a `String`).

## Layout

- `src/` — the verified library.
  - `error.rs` — error kinds and the error type.
  - `value.rs`, `value/source.rs`, `value/observation.rs` — dates, periods,
    frequencies, units, the registry, key codes, the curve guard, series
    identifiers, values and observations.
  - `parse.rs`, `parse/csv.rs`, `parse/json_form.rs` — the offline parser;
    `spec_parse` states what it accepts and with which error (kind and message)
    it refuses. `json_observations` is the JSON half on a document already read
    into values.
  - `json.rs` — the one call into `serde_json` (reading a JSON document into
    plain values), behind a trusted wrapper.
  - `authz.rs`, `pit.rs` — the authorization decision and the publication triple.
  - `laws.rs` — properties of the library as a whole, proved over the contracts.
  - `text.rs` — character-level building blocks (trimming, splitting, decimals).
- `tests/` — tests run against the compiled library.
- `app/` — ordinary Rust around the library: the error type with `Display`
  (via `thiserror`) and the `f64` reading of values, which stays out of the
  verified code.

## Values

A present value is kept as the source's numeral text; the parser takes a
numeral reader that says whether a CSV cell is a finite number. `app/` supplies
the standard library's `f64` reading and the usual two-argument entry points.
