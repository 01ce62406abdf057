# celld_storage

Object storage for the daemon: one S3-compatible bucket behind `object_store`,
with the decisions around every call verified with Verus.

- `src/storage_backend.rs`: which bucket, reached how, with which credentials;
  the builders of the bucket's two clients; the replica's configuration.
- `src/bucket.rs`: opening a bucket; what each call asks of which client, and
  what the store's reply amounts to; the conditional-write contract.
- `src/failure.rs`: kinds of errors, failures with their context, and whether a
  credential was rejected.
- `src/settings.rs`, `src/location.rs`, `src/metadata.rs`: the outside types of
  `object_store` and `hyper`, with what is trusted of them.
- `src/text.rs`: text operations.
- `app/`: the network calls and the process environment.

Conditional writes have a client of their own that never tries again: a retried
one can find the object as its first attempt left it and report a rejection of
a write that was applied.
