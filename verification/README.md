# shuidui

Backend of a monitoring and simulation system for water-powered trip hammers
(水碓): sensor readings arrive over MQTT, are simulated and checked for alerts,
and are stored in ClickHouse; cam profiles are compared and optimised.

Layout:

- `src/` — the library, verified with Verus:
  - `alerts` — alert levels and their labels;
  - `rate_limiter`, `alarm_gate` — sliding-window de-duplication of alerts,
    per device, with the guarantee that at most three alerts of one
    `type:level` go out within any five-second window;
  - `cam_profile` — which motion law a profile-type name selects, display names;
  - `lift_samples` — padding and thinning of user-drawn lift curves;
  - `design_feedback` — remarks and grade labels for visitor cam designs;
  - `batching` — buffering of samples before batched writes;
  - `store_queries` — query text for the store and its error type;
  - `metrics` — registration of the Prometheus metrics;
  - `config`, `text` — the search-grid configuration and text helpers.
- `app/` — the service around the library: MQTT, HTTP/WebSocket API, the
  ClickHouse client, and the floating-point dynamics, optimisation and
  vibration analysis.
- `tests/` — tests of the library.
