# wasmi_cli

A WebAssembly runner on top of `wasmi` that can record each run as a
CodeTracer trace (`--trace-out <DIR>`, `--trace-format ctfs|binary|binary_v0|json`).

- `src/` is the verified library (Verus). It decides every call made on the
  trace writer — opening the streams, registering the invoked function and its
  positional arguments `arg0`, `arg1`, ... under their parameters' types, closing the frame with the first
  result, a trap event or the "no value" placeholder, finishing and closing the
  trace — and how a run ends. `shape::lemma_recorded_run_well_formed` proves
  that every recorded run, whatever its outcome, yields a well-formed trace.
- `app/` is the program: argument parsing, the wasmi runtime, and the trace
  writer that carries out the library's decisions.
- `tests/` exercises the library on concrete values.
