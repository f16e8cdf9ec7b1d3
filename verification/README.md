# zombodb index options

The settings a ZomboDB index stores with PostgreSQL, verified with Verus.

- `src/options.rs`: `ZDBIndexOptions`, what each setting resolves to when
  unset (type name, refresh interval, alias, Elasticsearch index name, url,
  translog durability), and `RefreshInterval`.
- `src/validate.rs`: the checks on the url and translog_durability settings.
- `src/reloptions.rs`: every reloption with its description, default and
  bounds, and the laws tying those defaults to the checks and to the
  settings an index created without options reports.
- `src/text.rs`: string equality, last-character test, decimal rendering.
- `app/lib.rs`: registration with PostgreSQL, `amoptions`, reading the stored
  struct, and the SQL functions, built on pgx.
