# attic

Build traces and the Nix binary cache API of an Attic cache server, written
in Verus. The library (`src/`) holds the decisions that the request handlers
make on the requests and on what the database, the storage and the
authorization answer (the permission each handler asks for, which `.narinfo`
is signed, which objects an upsert selects from), each with a contract proved
by Verus. `app/` holds the HTTP handlers, the database entity and migration,
and the JSON forms of the types: it does the outside work and hands its
results to the library. How `.narinfo` files are written and signed, and how
requests are authorized, belong to parts of the server outside this crate,
which `app/` reaches through a trait.

- `src/store_path.rs`: store path hashes and base names.
- `src/text.rs`: character-level string operations.
- `src/build_trace.rs`: build trace entries and signatures.
- `src/binary_cache.rs`: `nix-cache-info`, `.narinfo` and NAR requests, and
  reading build traces.
- `src/upload.rs`: writing build traces.
- `src/schema.rs`: the `build_trace` table, its migration and the upsert.
- `src/router.rs`: the route table and the permissions of its handlers.
- `src/error.rs`: the errors the library decides on.
