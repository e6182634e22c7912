# mordexel

A trading engine for Binance USDⓈ-M futures that reads trade signals,
checks them against an execution policy and trades the approved ones.

- `src/` is the verified library (Verus): the domain model, signal
  parsing, the execution policy and its daily plan, validation of sizing
  and execution inputs, the Binance request queries and error mapping, the
  user-stream event logic and HTTP/Telegram ingress rules.
- `app/` is the program around it: start-up, the async task pipeline,
  HTTP, WebSocket and Telegram I/O, and the floating-point position sizing
  and order placement.
- `tests/` runs the library on concrete inputs.
