# sqlserver_adapter

The SQL Server and Fabric parts of a data-build adapter, verified with Verus.

- `auth`, `adapter_config`, `database`, `uri`: a connection profile becomes the URI of the MSSQL
  driver. Every parameter reads back from the URI exactly as it was given.
- `profile`, `prompt`: the interactive setup of a profile.
- `sql`, `relation`, `metadata`: the catalog queries and what is made of their results.
- `batch`, `catalog`, `columns`: query results as plain values, the catalog of tables and columns,
  and the schema of a relation.
- `text`, `sorted_map`: text as sequences of characters, and maps ordered by their keys.

`src/` is the library. What it takes from the `url`, `arrow` and `serde_json` crates and from the
standard library without proof stands in the functions marked `external_body`, and in one
specification of `String::push`. `app/` runs the prompts and the queries.
