# pluely_db

The chat-history and system-prompt store of the Pluely assistant, on SQLite
(through `rusqlite`), written in Verus.

- `src/` is the verified library.
  - `migrations`: the schema, its versioned migrations and the plan that
    brings a database up to date (including databases made before versions
    were recorded). The contract of `run_migrations` states what it sends
    to SQLite and how it reads the answers; from it the library proves that
    a second run, answered with the version the first run recorded, sends
    no migration and no stamp.
  - `queries`: conversations, messages and system prompts. Each operation
    states the statements it sends, the values it binds, and how it turns
    SQLite's answers into its result; the rules they
    apply (required texts, message timestamps, attached-files framing,
    not-found outcomes) stand as verified functions of their own.
  - `schema`: the records; `text`: trimming and the required-text rule;
    `decimal`: integer formatting for `PRAGMA user_version`; `ids`: fresh ids
    and the clock; `sql`: the `rusqlite` calls, behind `Store`, which keeps
    a ghost journal of every exchange with SQLite; `error`: `DbError`.
- `app/` holds what Verus does not take: the shared `Store` behind a
  mutex, the async commands, and the serializable records. Inside the
  library a message's attached files are JSON text (with the number of
  files, so that the library itself stores an empty list as NULL); app/
  turns them to and from JSON, decoding the files of a conversation's
  messages in order before it reports an unknown stored role.
- `tests/` runs the library against in-memory databases.
