# fleetbench

A fleet benchmark collector: host inspection, a prime-sieve CPU benchmark
(single-threaded and split across threads, optionally time-bounded with a CPU
frequency series) and an adb push/pull benchmark, each printing one JSON or
human-readable envelope.

## Layout

- `src/` — the library, verified with Verus. Every decision of the collector
  lives here with its contract: the sieves and their correctness checks
  (`sieve`), argument parsing (`cli`, `cpu`, `adb`), the `/proc/stat` parser
  (`env`), host and CPU records (`inspect`), the frequency sampler's schedule,
  Windows counter names and per-sample mean (`sampler`),
  payload generation and SHA-256 digests (`payload`), the order of the steps of
  an adb run (`plan`), text handling (`text`) and the record types (`schema`).
  `laws` states and proves properties that span several functions.
- `app/` — the `fleetbench` binary: command line, processes, files, clocks,
  threads, floating-point rates and JSON output around the library.
- `tests/` — tests of the library's public functions.
