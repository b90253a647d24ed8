# crixata

The core of a local-first grader of Terms of Service and Privacy Policies:
it grades a structured policy summary A-D, decides how the local HTTP API
answers the browser extension, starts the local inference engine with
bounded retries, keeps download bookkeeping, converts cache records, and
composes the application's paths. The functions under `src/` are verified
with Verus against their contracts, except five small trusted wrappers
(`external_body`) around calls into `url`, `dirs` and the standard library,
whose contracts are believed as written. The laws of the library are public
proof functions next to the code they speak of.

Layout:

- `src/grade.rs`: summary, grade, rubric and its laws.
- `src/server.rs`: routing, CORS, domain extraction, policy hash, and the
  grade-request state machine.
- `src/sidecar.rs`: engine status and the start-up state machine.
- `src/llm.rs`: engine URLs, prompt, grammar, completion request.
- `src/model.rs`: target triples, release assets, resumable downloads, and
  fetching what is missing.
- `src/cache.rs`, `src/sync.rs`: cache records, rows and shards.
- `src/config.rs`: settings and paths.
- `src/text.rs`: string helpers.
- `app/`: SQLite, HTTP client and server, process handling and the entry
  point, which perform the I/O that the library decides.
- `tests/`: tests of the library.
