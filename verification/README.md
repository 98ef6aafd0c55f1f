# lib_web

The web layer of a JSON-RPC web application, verified with Verus.

- `src/utils/cookie.rs`: the library's cookie type and its mathematical view.
- `src/utils/cookie_jar.rs`: the `cookie` crate's `CookieJar` behind trusted
  wrappers, its contents named by two maps (request cookies, changes).
- `src/utils/cookies.rs`: the request scoped jar, with its read-after-write
  and removal laws.
- `src/middleware/`: the `Set-Cookie` header values of the jar's changes, the
  authentication context resolution (a transition function driven by the
  caller), the request stamp, and the client error response.
- `src/handlers/handlers_rpc.rs`: JSON-RPC request parsing, request info and
  success body.
- `src/error.rs`: the errors and the status and client error answered for
  each.
- `app/`: the actix-web server around the library (middlewares, extractors,
  routes, static files).
