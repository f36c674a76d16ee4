# crypto_exc_all

The verified core of a unified crypto-exchange SDK for OKX, Binance USDⓈ-M,
Bitget, Bybit, Gate and Hyperliquid: one instrument model and its symbol on
each exchange, the requests each exchange is sent for a unified request, the
mapping of every exchange answer into one set of market, account, order and
fill types, the capabilities each exchange offers, the order-settings
preparation sequence, and the reading of private account-stream frames.

Every function states its result in Verus contracts and is proved against
them; exchange answers arrive as `json::JsonValue` documents.

- `src/` — the library, verified with Verus.
- `tests/` — tests against concrete exchange payloads.
- `app/` — the process edge: environment and `.env` loading, JSON text,
  the error type with `std::error::Error`, and the decimal arithmetic that
  exchanges leave to the client in floating point.
