# standalone_router

A KV-aware request router for inference workers with an HTTP front end. The library
under `src/` makes the decisions and is verified with Verus; `app/` waits, reads and sends.

- `hints` reads the priority jump and the expected output length of a request body.
- `tokenizer` says how a body is turned into tokens.
- `selection` queries for a prefill worker and for a decode worker; `selection_laws` states
  what holds of every selection.
- `routing` puts tokenizing and the two selections together; `route_laws` states what holds
  of every routing.
- `config` holds the settings and the endpoints of the front end.
- `headers` and `proxy` carry a request to a worker and its answer back; `proxy_laws` states
  what holds of every exchange, above all that a booking is released exactly once.
- `json` and `text` are what the others read and write with. `json` holds what is trusted of
  `serde_json`.

A routing or an exchange in progress is a step: a value that says what is to be done next.
Whoever drives it does that and hands the outcome back.
