# finance_overview

A small web service for logging income and expenses: users register by
e-mail, log in, keep account types and accounts, book amounts between two
accounts, and read journals, account tables and balances.

The rules of the service live in a library verified with Verus (`src/`);
the web server around it (`app/`) reads requests, talks to the document
store, the session store and the mail server, and hands plain values to the
library.

## Layout

- `src/datatypes.rs` – accounts, account types, journal entries, booking
  lines, booking requests and balances.
- `src/accounting_database.rs` – selecting booking lines and journal
  entries by account and time window, the latest saldo line per account,
  running numbers, and the journal entry and lines a booking creates.
- `src/in_memory_database.rs` – the ledger store with one record per user.
- `src/accounting_logic.rs`, `src/accounting_config_logic.rs` – the booking
  and configuration operations of one user: the checks before a booking
  (time window, booking time already taken, booking before a saldo) and the
  balance of each account since its latest saldo.
- `src/ledger_laws.rs` – properties spanning several operations: each user
  sees and changes only their own data, stored items are listed again,
  running numbers grow, a booking moves the same amount on both sides, a
  booking cannot credit and debit one account, and a saldo closes an
  account's past; `src/balance_laws.rs` – how a booking moves the balances
  a balance query reports.
- `src/database_handler_mongodb.rs`, `src/password_handle.rs` – decisions
  on user documents: existence, e-mail validation, credentials, password
  reset tokens.
- `src/session_data_handle.rs`, `src/html_render.rs`, `src/ajax_handle.rs`,
  `src/frontend_functions.rs` – session rules, page contents, form answers,
  account tables and the mails the service sends.
- `src/setting_struct.rs` – reading the settings file.
- `src/text.rs`, `src/convert_tools.rs`, `src/lookup.rs`,
  `src/platform.rs`, `src/mail_handle.rs`, `src/mdb_convert_tools.rs` –
  text helpers, HTML-safe escaping, first-match search, and the calls into
  `uuid`, `chrono`, `argon2`, `regex-automata` and `rust-ini`.
- `app/` – the `axum` server: routes, session cookies, MongoDB access,
  SMTP, templates.
- `tests/` – tests of the library.

The server expects `config/ServerSettings.ini` next to where it runs; a
template `config/DUMMY_ServerSettings.ini` is written on first start.
