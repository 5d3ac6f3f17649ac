# wa_judge

The judging core of the WA online judge, verified with Verus.

- `src/compare`: the output comparers (`compare_ascii`, `compare_utf8`,
  `compare_fast`), specified line by line over the texts, with the laws they
  satisfy in `compare/laws.rs`.
- `src/monitor`: what the process monitor reports: exit codes of its own
  failures, the decoding of a wait status and of resource usage, the argument
  vector of the monitored program.
- `src/server`: the judge server's data, the simple comparer, the command lines
  of compilers and language runtimes, the sandbox's monitor invocation, key
  names in the store, and the worker's judging as a step-by-step machine.
- `src/server2`: the second server's data and helpers.
- `app/`: the programs around the library: file and process I/O, the Redis
  connection, threads and channels, JSON.
