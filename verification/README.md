# lancedb_kmp

Offline recipe search over a LanceDB vector store with fastembed text
embeddings, exposed to Kotlin through UniFFI.

- `src/` is the verified core (Verus): error messages and the error each
  failing store call is reported as, white-space trimming, the texts handed
  to the embedding model, time-based identifiers in hexadecimal, the checks
  on seeded recipes and embeddings, the text columns written to and read
  from Arrow record batches, and the decisions of the seeding, seeded-check
  and search workflows.
- `app/` is the client that performs the store and model calls, builds the
  embedding column and computes similarity scores in floating point, and
  carries the UniFFI, serde and thiserror derives.
- `tests/` exercises the core on concrete values.
