# codex_process

The process mode of the `codex` command line and the process dashboard, as a
Verus-verified library.

- `src/` is the library. Parsers, formatters, triage rules, guardrails, the
  `gh` retry policy and the act-mode runs (`pr-comments --act`,
  `issues watch --act`, the quick-fix flows) are verified against their
  contracts. The runs are state machines: each step takes the outcome of the
  last outside action and returns the next one.
- `app/` is the program around it: argument parsing, running `git`, `gh` and
  `codex`, threads, files and the dashboard's HTTP server and database.
- `tests/` runs the library on concrete values.
