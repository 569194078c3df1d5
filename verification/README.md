# regions

Region management for a game-server panel, as a library verified with Verus.

- `src/models.rs`: regions, requests, and the conversion of database rows.
- `src/validation.rs`: the length rules that requests must meet (garde's
  `length` rule, bytes of UTF-8).
- `src/manager.rs`: the statements of a region creation or update, run as a
  dialogue with the database inside one transaction.
- `src/write_laws.rs`: what a whole write does, for every answer of the
  database.
- `src/permissions.rs`: the declared admin permissions and those each route
  demands.
- `src/routes.rs`: the replies of the routes and the activity log entries.
- `app/`: the HTTP handlers, the SQL, and the registration with the panel.
