# backend

An Axum + PostgreSQL + Redis authentication service (register, login,
JWT access/refresh tokens, logout, admin user management) whose decisions
are verified with Verus.

- `src/` — the verified library: cache key layout, token claims, request
  validation, the bearer-token authentication checks, and every handler's
  decisions between its database and cache calls, with the laws that tie them
  together (a logged-out token is refused, the session written at login is the
  one refresh reads, an admin cannot act on their own account, ...).
- `app/` — the server: configuration, database and Redis I/O, JWT signing and
  verification with `jsonwebtoken`, HTTP extractors, routes and JSON bodies.
- `tests/` — tests of the library on concrete values.
