# runwasi_shims

Verified configuration logic of the runwasi shims for wasmtime and wasmer.

- `src/config.rs` — the wasmtime TOML configuration (`[wasm]`, `[codegen]`,
  `[optimize]`) and the settings each section asks for.
- `src/settings.rs` — engine settings, and what a sequence of them amounts to
  (the last setting per key wins).
- `src/wasmtime_api.rs` — the trusted wrappers around `wasmtime::Config`, with
  a model of the settings the builder holds.
- `src/engine.rs` — `EngineConfig`, `WasmtimeConfig::apply` and
  `create_engine_config`.
- `src/laws.rs` — properties of engine configuration that hold for every TOML
  configuration.
- `src/discovery.rs` — where the TOML file is read from.
- `src/wasmer_shim.rs` — the wasmer shim's decisions: arguments, environment,
  module name, exit code.
- `app/` — reading the TOML file (serde and toml), the global config, and the
  wasmer sandbox that runs modules.
