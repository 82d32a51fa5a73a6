# lokoda_backend

The decision logic of the Lokoda backend (a networking service for
musicians), verified with Verus.

- `src/` — the verified library:
  - `models` — the data exchanged with clients and read from the database;
  - `group` — building groups from database records, the writes each group
    operation makes, and listing a user's groups newest first (a verified
    stable sort);
  - `delivery` — the member checks that precede a message in a chat, as a
    state machine with a proved plan;
  - `enrollment` — populating a new group or chat, as a state machine with a
    proved plan;
  - `password`, `guid`, `email` — bcrypt, GUID generation and e-mail
    composition behind trusted wrappers;
  - `reply` — the answer every endpoint gives to each outcome;
  - `register` — the steps and bodies of account registration.
- `tests/` — tests of the library.
- `app/` — the HTTP service (actix-web, MySQL through sqlx, SMTP) that runs
  the library's decisions.
