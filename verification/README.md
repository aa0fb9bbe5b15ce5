# pulsar

The core of the Pulsar endpoint telemetry agent, written in Verus: the functions in `src/`
carry contracts that Verus proves. The exceptions are a few small wrappers around std
(UTF-8 and UTF-16 decoding, `str::trim`, `str::to_lowercase`, `String::push`, an unstable
sort of `u64` keys and a slice's address), marked `#[verifier::external_body]`, whose
contracts restate std's documentation and are trusted rather than proved.

The registries are single-threaded: they hold std `HashMap`s keyed by integers and are
passed to the handlers as a `&mut SystemContext`; a caller that shares the context between
threads wraps it in a lock. Synthetic keys are drawn from explicit `IdCounter`s held by the
context.

- `src/helpers` — decoding of telemetry payloads: little-endian fields, ANSI and UTF-16
  strings, the PE header and export-directory parser, the pairing of syscall triggers with
  stack walks, and number/text rendering.
- `src/context` — the system knowledge graph: processes (with PID recycling and
  retention of exited processes as tombstones), modules, handles, tokens, files (deduplicated
  by normalized path, with a bounded access history and signature verdicts), connections,
  the bounded interaction log, the injection correlator, the event handlers that update it
  all, and read-only query handles over it.
- `src/alerts` — alert records, the bounded alert store and the console rendering.
- `src/bootstrap.rs`, `src/drivers`, `src/error.rs`, `src/cli.rs` — start-up decisions,
  driver-answer checks, error messages and the command-line options.
- `app/` — the executable: argument parsing, logging, Win32 calls (service control,
  driver device, Authenticode, DbgHelp), and the background enrichment and retention
  threads. It hands plain values to the library and takes plain values back.
- `tests/` — tests run against the compiled library.
