# tide_disco

Discoverable web APIs, described by TOML specifications and served with their own
documentation, health checks and version information.

The crate is in two parts:

- `src/` is the library, verified with Verus: the model of an API specification and its
  parser (`api`, `route`), route parameters and content negotiation (`request`), HTTP methods
  and status codes (`method`, `status`, `types`), module dispatch and versioning (`dispatch`,
  `app`), errors (`error`), the client's reading of responses (`client`), health checks,
  metrics and sockets (`healthcheck`, `middleware`, `socket`), the rate-limited listener's
  decisions (`listener`), and the older configuration-driven server (`disco`). Calls into other
  crates (HTTP types, semantic versions, tagged base 64, Markdown, URLs, paths, routefinder)
  go through small trusted items whose contracts are stated next to them.
- `app/` is the plumbing around it, in ordinary Rust: the Tide server, the `reqwest` client,
  configuration, logging, signals, file reading and the serializable forms of the library's
  types.

`tests/` holds the tests of the library.
