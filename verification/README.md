# faxtop

The logic of a small authentication and crawling service, verified with Verus.

- `src/` is the verified library:
  - `config/`: crawl descriptions and the crawler that reads pages into JSON values
    (`config/dom.rs` holds the trusted items through which scraper parses and selects);
  - `auth_handler.rs`, `password_handler.rs`, `register_handler.rs`: the decisions of sign-in,
    account creation and registration, from what the session and the database gave;
  - `email_service.rs`: the confirmation mail;
  - `error.rs`: errors and the replies that stand for them;
  - `session.rs`, `records.rs`: users, confirmations and their stored form;
  - `utils.rs`: password hashing (pbkdf2) and the session user;
  - `ids.rs`, `timestamps.rs`: UUIDs (uuid) and times (chrono);
  - `vars.rs`: settings with their defaults.
- `app/` is the HTTP server (actix-web), the database (mongodb), mail sending (lettre), the
  network fetches of the crawler (reqwest) and the JSON shapes (serde).
- `tests/` runs the library on concrete values.
