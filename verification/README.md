# talon_control

The control-plane core of Talon as a verified library: resource keys and
their canonical texts, the schemas and queries of the key-value stores
(SQLite, Postgres, D1, DynamoDB, RocksDB), content-addressed object keys and
their metadata, task delegation decisions, prompt and manifest templating,
configuration documents (reading, `extends` chains, merging, the typed
configuration and its checks) and the JSON codecs of resource specs and
statuses.

- `src/` is the library. Every function there carries a contract that
  Verus checks; calls into outside crates (`serde_json`, `serde_yaml`,
  `toml`, `minijinja`, `chrono`, `flate2`, `zstd`, `sha2`, `base64`,
  `urlencoding`) go through small trusted wrappers whose contracts say what
  those crates document.
- `app/` holds what the library leaves to its host: file and environment
  access, the `serde` copies of the configuration sections, and the
  key-value store interface that storage backends implement.
- `tests/` runs the library on concrete values.
