# cbadv

A client library for the Coinbase Advanced Trade API, written in Verus.

- `src/` is the verified library: query strings and request checks of every endpoint, the
  order builders, time spans and the windows of candle requests, the candle tracker, the REST
  client settings, and the decisions of the WebSocket client (routing channels to endpoints,
  framing subscriptions, keeping subscriptions for reconnection, retry policy, frame handling).
- `app/` is the runtime around it: the serde forms of the messages (their prices are floating
  point), the token bucket, and the WebSocket connection loop that performs the I/O the library
  decides on.
- `tests/` runs the library on concrete values.

The REST requests themselves are not provided: the library holds the REST client's settings,
the query strings, request checks, addresses and status handling, but signing requests needs
the JWT module, which this project does not hold.
