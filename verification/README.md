# mongo_ffi_core

The verified core of a C-facing layer over a MongoDB driver, together with
pieces of the driver it leans on: decoding the caller's arguments, building
client and operation options, classifying errors for the caller, cursor and
change-stream bookkeeping, server-address identity, span attributes for
tracing, and client-side encryption key descriptions.

Layout:

- `src/` — the library, written in Verus and proved by it. Calls into
  `bson`, `time` and a few parts of `std` go through small trusted wrappers
  whose contracts Verus takes on trust; each one's doc comment says what is
  assumed, and a wrapper whose result cannot be stated (the clock) has no
  `ensures`.
  Public `proof fn`s state the library's laws (for example, a polled change
  stream resumes at most once between successful resumes, and address
  equality agrees with the hash key, and a call answers its callback at
  most once).
- `tests/` — ordinary Rust tests run against the compiled library.
- `app/` — unverified glue: C strings, environment variables, global state,
  OpenTelemetry spans, libmongocrypt providers, serde forms of the key types.
