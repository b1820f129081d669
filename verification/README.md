# axum_api

A small REST API service for user registration, login and JSON-web-token
checks. The Verus library under `src/` holds the logic, with its contracts:

- `database`: users, the `Database` trait of synchronous user stores (a map
  from email to password: registration succeeds exactly for a new email,
  login exactly for a registered email and its password) and the in-memory
  store that implements it.
- `password`: bcrypt password records as ScyllaDB stores them, the check of
  a password against a stored row, and the reading of a conditional insert's
  reply (ScyllaDB inserts a user only where the email is new).
- `token`: the token manager; issuing tokens and reading them back through
  `jsonwebtoken`, with the expiry check.
- `api`: what the endpoints answer.
- `server_state`, `config`: the state the handlers share and the settings.

`app/` is the program around it: the axum router and handlers, the ScyllaDB
session (an asynchronous store, outside the `Database` trait, that refuses a
duplicate email through ScyllaDB's conditional insert and checks passwords
with `password::check_stored_password`), the config file and `main`.
