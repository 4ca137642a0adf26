# sabaton-mw

The logic of the Sabaton middleware, verified with Verus, and the runtime around it.

- `src/` is the verified library: node settings and their defaults, publish and
  subscribe options, the quality-of-service policies a topic gets, topic and
  service discovery names, the DDS configuration document, the selection of
  service ids from the service mapping, the pairing of services with their
  handlers, and the decision of when a proxy connects.
- `app/` holds what runs it: the DDS entities (participant, readers, writers),
  the tokio runtime of a node, the SOME/IP servers and proxies, and the file and
  environment access (service mapping file, `CYCLONEDDS_URI`).
- `tests/` exercises the library on concrete values.
