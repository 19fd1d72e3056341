# dormtk

The backend of a dormitory management service: users and roles, students,
classes, buildings, rooms and accommodations, student duties and task
assignments, and dormitory inspections confirmed by short-lived QR tokens.

## Layout

- `src/` is the library, verified with Verus: configuration loading,
  paging, bearer tokens, issuing access tokens and what decoding one may
  give (a token decodes only to the user it was issued for; whether it is
  still valid depends on the clock and is left to `jsonwebtoken`), password
  hashing, base-data validation, duty resolution, the SQL an inspection task
  is published with, QR token hashing, issuing and revocation, the decision
  on a QR scan (with the reason a rejected scan is stored with) and the
  status it leaves the token in, and the approved leave
  that turns a record into `leave`. The calls into `sha2`, `rand_core`,
  `jsonwebtoken` and the system clock are the trusted items of
  `src/crypto.rs`.
- `tests/` runs the library on concrete values.
- `app/` is the HTTP service around the library: `axum` routes, `sqlx`
  queries against PostgreSQL, the JSON shapes of requests and answers, and
  reading the configuration file and environment. Each handler gathers what
  it needs from the database, asks the library for the decision and carries
  it out; what the database itself keeps (unique rows, one active token per
  record at a time under concurrent requests) is left to its constraints.
