# soroban_cost_lints

Cost lints for Soroban smart contracts, with the configuration and
budget-report logic of the tools that drive them. The decisions are verified
with Verus; the compiler, file and network plumbing lives in `app/`.

## Layout

- `src/` — the verified library.
  - `model` — plain-value description of what the lints read of a contract:
    expressions with their resolved receiver types, local bindings, enclosing
    loops, blocks, parameters and the local call graph.
  - `paths`, `text`, `symbols` — definition-path matching against the Soroban
    SDK types, character-level string predicates, short symbols.
  - `analysis` — loop dependence, the enclosing loop, the bounded
    inter-procedural search for storage operations.
  - `passes`, `fn_passes`, `unbounded` — the lints, each deciding from the
    model whether and how to report.
  - `lints` — lint names, levels, descriptions, categories, the registry and
    the diagnostics' texts.
  - `names`, `config`, `budget` — lint-name sets and configuration validation.
  - `report` — network limits, their source, metric limits, value scaling.
  - `sdk` — a stateless stand-in for the SDK accessors the lints match on.
  - `laws` — properties that span several functions.
- `tests/` — tests of the library, including the lint scenarios of the
  compiler UI fixtures expressed over the model.
- `app/` — the `cargo budget-report` binary, the `budget.toml` readers and the
  compiler glue that describes HIR to the library and emits diagnostics.
