# zene

The decision-making core of Zene, an embeddable execution engine for coding
agents, written in Verus and proved against its specifications.

- `src/` — the library. Its functions state what they return in `ensures`
  over mathematical models (`Seq<char>` for text, `Map` for keyed tables) and
  are proved. The exceptions are those whose result is the clock's, the
  user's answer or a flag shared between threads (`now_ts_ms`,
  `CliUserInterface::new` and `confirm_execution`, `CancellationToken::cancel`
  and `is_cancelled`): nothing is stated of what they return. The few calls
  into the standard library that Verus cannot see are small trusted functions
  whose contracts are stated next to them. Cross-function properties are
  public `law_*` proof functions.
- `tests/` — executable tests of the library on concrete values.
- `app/` — the `zene` command: model clients (llm-connector), files,
  processes, the network, stdin/stdout and JSON. It makes the calls the
  library decides on and hands their results back.

Main pieces: configuration and backend choice (`config`, `core_config`,
`client`), plans and the planned run (`plan`, `core_plan`, `planner`,
`reflector`, `executor`, `orchestration`, `compactor`), tools (`tools`,
`patch`, `python_env`), runs and sessions (`runtime`, `engine_runs`,
`session`, `session_store`), and the host and worker protocols (`host`,
`host_registry`, `worker`).
