use runwasi_shims::wasmer_shim::{
    exit_code, module_name, plan_run, runner_args, runner_envs, split_env, RunOutcome, WasmerShim,
};

fn strings(items: &[&str]) -> Vec<String> {
    items.iter().map(|s| s.to_string()).collect()
}

#[test]
fn shim_name() {
    assert_eq!(WasmerShim::name(), "wasmer");
}

#[test]
fn split_env_cases() {
    assert_eq!(split_env("KEY=value"), ("KEY".to_string(), "value".to_string()));
    assert_eq!(split_env("KEY"), ("KEY".to_string(), String::new()));
    assert_eq!(split_env("A=B=C"), ("A".to_string(), "B=C".to_string()));
    assert_eq!(split_env("=x"), (String::new(), "x".to_string()));
    assert_eq!(split_env("K="), ("K".to_string(), String::new()));
    assert_eq!(split_env(""), (String::new(), String::new()));
    assert_eq!(split_env("ключ=значение"), ("ключ".to_string(), "значение".to_string()));
}

#[test]
fn runner_envs_in_order() {
    let envs = strings(&["PATH=/bin", "EMPTY", "X=1=2"]);
    assert_eq!(
        runner_envs(&envs),
        vec![
            ("PATH".to_string(), "/bin".to_string()),
            ("EMPTY".to_string(), String::new()),
            ("X".to_string(), "1=2".to_string()),
        ]
    );
}

#[test]
fn runner_args_drop_program_name() {
    assert_eq!(runner_args(&strings(&[])), Vec::<String>::new());
    assert_eq!(runner_args(&strings(&["prog"])), Vec::<String>::new());
    assert_eq!(runner_args(&strings(&["prog", "a", "b"])), strings(&["a", "b"]));
}

#[test]
fn module_name_defaults_to_main() {
    assert_eq!(module_name(None), "main");
    assert_eq!(module_name(Some("app".to_string())), "app");
}

#[test]
fn plan_run_combines() {
    let plan = plan_run(&strings(&["m.wasm", "--flag"]), &strings(&["A=1"]), None);
    assert_eq!(plan.args, strings(&["--flag"]));
    assert_eq!(plan.envs, vec![("A".to_string(), "1".to_string())]);
    assert_eq!(plan.module_name, "main");
}

#[test]
fn exit_codes() {
    assert_eq!(exit_code(RunOutcome::Completed), Some(0));
    assert_eq!(exit_code(RunOutcome::Exited(42)), Some(42));
    assert_eq!(exit_code(RunOutcome::Exited(-1)), Some(-1));
    assert_eq!(exit_code(RunOutcome::Failed), None);
}
