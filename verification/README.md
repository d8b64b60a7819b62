# row_delta

A row delta adds data files and delete files to a table in one snapshot. This
crate collects the files, decides whether the table can take them, and works out
what has to be written and changed for the snapshot to be in force. It is written
in Verus: every function carries a contract, and each is proved but for those of
the calls into the `uuid` crate in `src/uuids.rs`.

- `src/action.rs`: the action, and the decision to commit it
- `src/operation.rs`: its operation, and the manifests it takes over
- `src/producer.rs`: the checks on files, the new manifests, the snapshot
- `src/summary.rs`, `src/properties.rs`: what the snapshot says of itself
- `src/snapshot.rs`: the changes to the table's metadata
- `src/files.rs`, `src/manifest.rs`, `src/table.rs`, `src/error.rs`: the data model
- `src/uuids.rs`: commit identifiers, from the `uuid` crate
- `src/laws.rs`: what holds of row deltas as a whole

`app/` reads and writes storage around these decisions.
