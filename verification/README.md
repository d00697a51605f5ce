# vertex_geyser_plugin

A Geyser plugin that streams validator data into PostgreSQL.

- `src/` is the verified library (Verus): the configuration model and the
  error texts (`config`), the connection plan, client settings, highest-slot
  interpretation and parallel-client layout (`postgres_client`), the plugin
  object (`geyser_plugin_vertex`), and decimal / `{:?}` text rendering
  (`text`). Laws about the connection plan, the startup slot bound and worker
  names are proof functions in `postgres_client` and `text`.
- `app/` is the unverified shell: reading and parsing the configuration file,
  logging, TLS setup, the PostgreSQL connection and queries, worker threads,
  the plugin interface implementation and the `config-check` command.
- `tests/` runs the library on concrete values.
