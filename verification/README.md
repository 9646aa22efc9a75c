# zero2prod

The logic of a small newsletter service, verified with Verus.

- `src/` is the verified library: name and e-mail validation
  (`domain`), the database URL (`configuration`), HTTP Basic credentials,
  the subscription decision and the publication state machine (`routes`),
  and character helpers (`text`).
- `app/` is the server around it: configuration loading, PostgreSQL,
  the actix-web handlers and the e-mail delivery client. The handlers hand
  the library plain values and carry out the actions it returns.
- `tests/` runs the library on concrete values.
