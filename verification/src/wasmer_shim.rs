//! The decisions of the wasmer shim: how a container's arguments, environment
//! and entrypoint become the WASI runner's inputs, and how the runner's
//! outcome becomes an exit code.
use vstd::prelude::*;
use vstd::string::StrSliceExecFns;

verus! {

/// The shim backed by the wasmer runtime.
pub struct WasmerShim;

impl WasmerShim {
    /// The runtime name under which this shim registers.
    pub fn name() -> (name: &'static str)
        ensures
            name@ == "wasmer"@,
    {
        "wasmer"
    }
}

/// `key` and `value` are `entry` split at its first `=`; an entry without
/// `=` is all key, with an empty value.
pub open spec fn is_env_split(entry: Seq<char>, key: Seq<char>, value: Seq<char>) -> bool {
    if entry.contains('=') {
        &&& key + seq!['='] + value == entry
        &&& !key.contains('=')
    } else {
        &&& key == entry
        &&& value == Seq::<char>::empty()
    }
}

/// Splits a `KEY=VALUE` environment entry at its first `=`.
pub fn split_env(entry: &str) -> (kv: (String, String))
    ensures
        is_env_split(entry@, kv.0@, kv.1@),
{
    let n: usize = entry.unicode_len();
    let mut i: usize = 0;
    while i < n
        invariant
            n == entry@.len(),
            i <= n,
            forall|j: int| 0 <= j < i ==> entry@[j] != '=',
        decreases n - i,
    {
        if entry.get_char(i) == '=' {
            let key = entry.substring_char(0, i).to_owned();
            let value = entry.substring_char(i + 1, n).to_owned();
            proof {
                assert(entry@.contains('='));
                assert(key@ + seq!['='] + value@ =~= entry@);
                assert forall|j: int| 0 <= j < key@.len() implies key@[j] != '=' by {
                    assert(key@[j] == entry@[j]);
                }
            }
            return (key, value);
        }
        i += 1;
    }
    (entry.to_owned(), String::new())
}

/// The split of an entry is unique: there is one way to split at the first `=`.
pub proof fn law_env_split_unique(entry: Seq<char>, k1: Seq<char>, v1: Seq<char>, k2: Seq<char>, v2: Seq<char>)
    requires
        is_env_split(entry, k1, v1),
        is_env_split(entry, k2, v2),
    ensures
        k1 == k2,
        v1 == v2,
{
    if entry.contains('=') {
        assert(entry[k1.len() as int] == '=');
        assert(entry[k2.len() as int] == '=');
        if k1.len() < k2.len() {
            assert(k2[k1.len() as int] == entry[k1.len() as int]);
            assert(k2.contains('='));
        }
        if k2.len() < k1.len() {
            assert(k1[k2.len() as int] == entry[k2.len() as int]);
            assert(k1.contains('='));
        }
        assert(k1 =~= entry.subrange(0, k1.len() as int));
        assert(k2 =~= entry.subrange(0, k2.len() as int));
        assert(v1 =~= entry.subrange(k1.len() + 1int, entry.len() as int));
        assert(v2 =~= entry.subrange(k2.len() + 1int, entry.len() as int));
    }
}

/// Splits every environment entry, in order.
pub fn runner_envs(envs: &Vec<String>) -> (pairs: Vec<(String, String)>)
    ensures
        pairs.len() == envs.len(),
        forall|i: int| 0 <= i < envs.len() ==> is_env_split(envs[i]@, #[trigger] pairs[i].0@, pairs[i].1@),
{
    let mut pairs: Vec<(String, String)> = Vec::new();
    let n: usize = envs.len();
    let mut i: usize = 0;
    while i < n
        invariant
            n == envs.len(),
            i <= n,
            pairs.len() == i,
            forall|j: int| 0 <= j < i ==> is_env_split(envs[j]@, #[trigger] pairs[j].0@, pairs[j].1@),
        decreases n - i,
    {
        let kv = split_env(envs[i].as_str());
        pairs.push(kv);
        i += 1;
    }
    pairs
}

/// The arguments handed to the program: all but the first (the program name).
pub open spec fn program_args(args: Seq<String>) -> Seq<String> {
    if args.len() == 0 {
        Seq::empty()
    } else {
        args.skip(1)
    }
}

/// The program's arguments are all the container's arguments after the
/// first, in order; there are none when the container has none.
pub proof fn law_program_args_drop_only_first(args: Seq<String>)
    ensures
        args.len() == 0 ==> program_args(args).len() == 0,
        args.len() > 0 ==> program_args(args).len() == args.len() - 1,
        forall|i: int| 0 <= i < program_args(args).len() ==> #[trigger] program_args(args)[i] == args[i + 1],
{
}

/// The container's arguments without the first one.
pub fn runner_args(args: &Vec<String>) -> (rest: Vec<String>)
    ensures
        rest@ == program_args(args@),
        args.len() == 0 ==> rest.len() == 0,
        args.len() > 0 ==> rest.len() == args.len() - 1,
        forall|i: int| 0 <= i < rest.len() ==> #[trigger] rest[i] == args[i + 1],
{
    let mut rest: Vec<String> = Vec::new();
    let n: usize = args.len();
    let mut i: usize = 1;
    while i < n
        invariant
            n == args.len(),
            1 <= i,
            n > 0 ==> i <= n,
            n > 0 ==> rest@ =~= args@.subrange(1, i as int),
            n == 0 ==> rest@.len() == 0,
        decreases n - i,
    {
        rest.push(args[i].clone());
        i += 1;
    }
    proof {
        if n > 0 {
            assert(rest@ =~= args@.skip(1));
        } else {
            assert(rest@ =~= Seq::<String>::empty());
        }
    }
    rest
}

/// The module name: the entrypoint's name, or `main` when it has none.
pub fn module_name(name: Option<String>) -> (module: String)
    ensures
        name is Some ==> module == name->0,
        name is None ==> module@ == "main"@,
{
    match name {
        Some(n) => n,
        None => "main".to_owned(),
    }
}

/// What the WASI runner is started with.
pub struct WasiRunPlan {
    /// Arguments for the program, without the program name.
    pub args: Vec<String>,
    /// Environment as (key, value) pairs.
    pub envs: Vec<(String, String)>,
    /// Name under which the module runs.
    pub module_name: String,
}

/// Prepares the WASI runner's inputs from the container's arguments,
/// environment entries and entrypoint name.
pub fn plan_run(args: &Vec<String>, envs: &Vec<String>, name: Option<String>) -> (plan: WasiRunPlan)
    ensures
        plan.args@ == program_args(args@),
        args.len() == 0 ==> plan.args.len() == 0,
        args.len() > 0 ==> plan.args.len() == args.len() - 1,
        forall|i: int| 0 <= i < plan.args.len() ==> #[trigger] plan.args[i] == args[i + 1],
        plan.envs.len() == envs.len(),
        forall|i: int| 0 <= i < envs.len() ==> is_env_split(envs[i]@, #[trigger] plan.envs[i].0@, plan.envs[i].1@),
        name is Some ==> plan.module_name == name->0,
        name is None ==> plan.module_name@ == "main"@,
{
    WasiRunPlan { args: runner_args(args), envs: runner_envs(envs), module_name: module_name(name) }
}

/// How a WASI run ended.
#[derive(Clone, Copy, Debug, PartialEq, Eq, Structural)]
pub enum RunOutcome {
    /// The entry function returned.
    Completed,
    /// The program exited with this code.
    Exited(i32),
    /// The run failed for another reason.
    Failed,
}

/// The exit code of a run: 0 when it completed, the program's code when it
/// exited, none when it failed (the error is passed on).
pub fn exit_code(outcome: RunOutcome) -> (code: Option<i32>)
    ensures
        code == (match outcome {
            RunOutcome::Completed => Some(0i32),
            RunOutcome::Exited(c) => Some(c),
            RunOutcome::Failed => None,
        }),
{
    match outcome {
        RunOutcome::Completed => Some(0),
        RunOutcome::Exited(c) => Some(c),
        RunOutcome::Failed => None,
    }
}

} // verus!
