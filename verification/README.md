# openbridge

A gateway that authenticates users and proxies their requests and
WebSockets to backend services and notebooks; its library also decides
which idle notebooks are to be shut down.

- `src/` is the library, verified with Verus: the PROXY protocol v2 parser,
  the request and response header policies of the proxy, the WebSocket
  relays, the decisions of the middlewares, the admin form parsers, the
  records and their conversions, the reading of the configuration files,
  the notebook lifecycle rules, the logger's batching, and the page
  helpers. Calls into other crates (time, chrono, urlencoding, sha2,
  base64, base64ct, openssl, p256, jsonwebtoken, rand, bson, toml) go
  through small trusted wrappers whose contracts say what those crates do.
- `tests/` runs the library on concrete values.
- `app/` is the server around it: reading the key and configuration
  files from disk, token signing, the actix middlewares and listeners,
  the HTTP and WebSocket plumbing.
  It has no database, cache, Kubernetes or log-shipping clients, so the
  notebook lifecycle, the session cache and the observability channels
  are not driven by it.
