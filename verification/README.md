# mdws

Market data workers, trading accounting and an analytics service, with the
logic verified by Verus.

## Layout

- `src/` — the verified library
  - `decimal.rs` — fixed-point decimals; the arithmetic is `rust_decimal`'s,
    named and constrained by the facts its trusted functions state
  - `text.rs`, `symbol_map.rs` — text helpers and maps keyed by text
  - `asset.rs` — the asset classes shared by all services
  - `trading/` — positions, portfolios, leveraged positions and the margin
    engine, the market snapshot, allocation strategies
  - `workers/` — feed configuration, requests and messages, the tickers each
    feed connection keeps, subscription routing, stream retention and retries
  - `analytics/` — analysis jobs and queries, the terminal client's state
    machine and what its screens show
- `tests/` — tests of the library on concrete values
- `app/` — the programs: the workers service (websockets, RabbitMQ streams),
  the analytics service (axum, Redis, InfluxDB, polars) and the terminal
  client (ratatui); they do the I/O and hand decisions to the library,
  except where the values are floating point (market tables, indicators,
  data frames)

Run `mdws workers`, `mdws analytics` or `mdws tui`.
