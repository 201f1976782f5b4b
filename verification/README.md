# tide_auth

Registration, login and password handling for a small tide web application.

- `src/` is the verified library:
  - `error`: the errors a page shows and their messages;
  - `models`: accounts and password-reset tokens, the password rules, Argon2
    hashing under a random salt, and the SQL statements (text and bound
    values) that read and write them;
  - `templates`: what each page shows;
  - `controllers`: what the handlers decide, as steps from a state and an
    event (a user fetched, a statement run, a session updated) to the next
    state and action;
  - `text`: appending characters and writing integers in decimal;
  - `crypto`: the calls into `rust-argon2` and `rand`, with their contracts.
- `app/` is the server: routing, the database and the session store, the
  askama pages, and a loop that performs each action and reports its event.
- `tests/` runs the library on concrete values.
