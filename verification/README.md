# ogmios_proxy

The verified core of an Ogmios gateway: a proxy that routes consumers to
versioned Ogmios instances under per-tier rate limits, and an operator that
meters the proxy's usage for billing.

- `src/` is the library, verified with Verus.
  - `text`: decimal rendering and parsing of integers, string comparisons.
  - `pattern`: regular-expression searches through the `regex` crate; the
    library reasons about what a search captured through a named outcome.
  - `table`: keyed tables where the last item of a key wins.
  - `env`: the environment variables and configuration errors.
  - `proxy`: configuration, tiers and interval parsing, the limiter
    registry and plan, token-bucket settings (built with `leaky-bucket`),
    request routing, the authentication plugins, health decisions.
  - `operator`: configuration, the port status, the usage query and which
    series are billed to which project.
- `app/` is the running program around it: environment reading, the
  tiers-file watcher, HTTP and WebSocket proxying with `hyper` and
  `tokio-tungstenite`, Prometheus counters and the metering loop.
- `tests/` exercises the library, including the rate limiter's timing under
  a paused `tokio` clock.
