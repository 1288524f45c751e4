# dartforge (differential harness)

A differential harness for a Dart compiler. Each program of a corpus runs on
the Dart VM (`dart run`, the semantic oracle), on `dartdevc` + Node (the
contract oracle) and on the compiler under test; the harness compares their
stdout and exit codes and prints a report grouped by failure.

Layout:

- `src/` is the library, verified with Verus:
  - `corpus.rs`: program headers, the order of the listing, fragments, themes;
  - `relatorio.rs`: comparison of outputs, failure keys, the side-by-side view
    and the report;
  - `oraculos.rs`: the texts handed to and taken from the tools (`main.mjs`,
    the exported name, `file://` URLs, failure labels, the JIT timings line),
    and the FNV key of the cache;
  - `cache.rs`: the text an output is kept as in the cache, and its reading;
  - `processo.rs`: bounded capture of a process's pipes and its outcome;
  - `contrato.rs`: the Markdown document of the `dartdevc` contract;
  - `execucao.rs`: what to run for each program, and on how many workers;
  - `diagnosticos.rs`, `tabela.rs`: the analyzer's error codes and diagnostics;
  - `texto.rs`: the text model (lines, trimming, decimal numbers) the rest is
    specified with.
- `app/` is the command-line program: it finds the tools, runs the processes,
  reads and writes files, and hands plain values to the library.
- `tests/` runs the library on concrete values.

There are no per-class constants of the analyzer's codes (such as
`compile_time_error::UNDEFINED_FUNCTION`): a code is looked up by its unique
name with `Codigo::por_unico`, or by its reported name with
`Codigo::por_nome`.
