# dgc_api

Request handling rules of an agent and transaction service, verified with Verus.

- `src/` — the verified library:
  - `text`: splitting on a separator and joining back, with the laws that tie them.
  - `errors`: field errors and the validator that gathers them while a body is read.
  - `agents`: create, update and login bodies; reading their fields; turning the roles and
    metadata texts into roles and entries; answering a lookup by public key.
  - `transactions`: batch queries, the status of a submission's reply, and error replies.
  - `db_agents`: answers to database lookups, and the form that creates an agent.
- `app/` — the HTTP routes (Rocket), key derivation (Sawtooth signing), and the calls to the
  validator, the ledger and the database.
- `tests/` — tests of the library on concrete values.
