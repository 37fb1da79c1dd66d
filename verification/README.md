# micro_http

A small HTTP framework: handlers and middlewares registered per uri and
method, static file hosting, request parsing and response building, with the
logic verified by Verus.

- `src/` — the verified library: the registries (`HandlerMap`,
  `CapacityArray`, `ShareableData`), the request parser (`HttpRequest`), the
  response builder (`HttpResponse`, `Headers`), the configuration
  (`Configurable`), the status-code table, the method names and the error type.
  Handlers are a type parameter `H`, so the registries carry whatever function
  type the server uses. Response headers are held by `Headers`, an ordered
  list of name-value pairs in which no name occurs twice, rather than a
  `HashMap<String, String>`: vstd specifies `HashMap` lookups by `String` keys
  only under assumptions on the key type's hashing, and offers no walk over
  its entries, which `build_final_response` needs to write the header lines.
  Which middlewares and handler answer a request is decided by
  `ShareableData::dispatch_plan`; the server in `app/` only calls them.
  Static directories are resolved by `apply_dir_steps` on the names of the
  working directory's components, and a request's bytes are decoded and
  parsed by `HttpRequest::parse_request_bytes`.
- `app/` — the server around it: the debug log, the listener and worker
  threads, reading requests from sockets, reading hosted files, and the copy of
  the error type that carries `std::error::Error` through `thiserror`.
- `tests/` — the tests.
