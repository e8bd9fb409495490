# book_manager

A book-lending web service. `src/` is a Verus-verified library with its
contracts and laws; `app/` is the service around it (configuration, logging,
the PostgreSQL and Redis connections, the axum routes and handlers); `tests/`
run the library.

Modules of the library:

- `id` — book, user and checkout identifiers (UUIDs as 128-bit integers),
  their hyphenated text and parsing.
- `error` — the application error and the HTTP status that answers it.
- `model` — books, owners, checkouts, access tokens and request events.
- `book_row`, `checkout_row` — database rows and their conversion to the model;
  the lending history of a book.
- `auth`, `kv_store` — access-token keys and values in the key-value store,
  and its client.
- `checkout_flow` — the transactions that check a book out and return it, as
  state machines driven by database replies, with laws over whole runs.
- `health`, `text` — health statuses, logging levels, decimal text.
