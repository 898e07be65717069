# disyn

The decision core of a hybrid symbolic/neural agent pipeline, written in Verus. An
observation becomes facts, facts and recalled memory become a proposed plan, the plan is
verified by layered rules and repaired while the budget allows, replanned once if it still
fails, and only a passing plan is executed; the execution report is stored and its cost
recorded.

Layout:

- `src/` — the verified library: the budget, the layered rule verifier and the repair
  engine, the formal clause evaluator, the bounded episode store and its retrieval ranking,
  the pipeline controller (a state machine whose every step is specified and shown to
  terminate), the prompt and reply handling of the model adapters, the shell executor's
  bookkeeping, and the `cargo xtask` dispatcher.
- `tests/` — tests of the library.
- `app/` — the program around it: command line, HTTP calls, process spawning, the async
  loop that carries out the controller's commands, serialization and logging.
