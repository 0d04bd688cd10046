//! The engine settings that the shim hands to wasmtime, and what a sequence
//! of them amounts to.
//!
//! A wasmtime `Config` is a builder whose setters overwrite one another: the
//! value that counts for a setting is the one given last.  The library keeps
//! the sequence of settings it issues, and `effective` reads off, for each
//! setting key, the last one issued.
use vstd::prelude::*;

verus! {

/// A WebAssembly proposal that can be switched on or off (`[wasm]` section).
#[derive(Clone, Copy, Debug, PartialEq, Eq, Structural)]
pub enum Feature {
    Gc,
    FunctionReferences,
    Threads,
    Simd,
    RelaxedSimd,
    BulkMemory,
    MultiValue,
    MultiMemory,
    Memory64,
    TailCall,
    WideArithmetic,
    CustomPageSizes,
    ReferenceTypes,
    ExtendedConst,
    ComponentModel,
    StackSwitching,
}

/// Cranelift optimization level.
#[derive(Clone, Copy, Debug, PartialEq, Eq, Structural)]
pub enum OptLevel {
    NoOpt,
    Speed,
    SpeedAndSize,
}

/// The optimization level that a TOML `opt-level` value selects:
/// 0 is none, 1 is speed, every higher value is speed-and-size.
pub open spec fn opt_level_for(level: u8) -> OptLevel {
    if level == 0 {
        OptLevel::NoOpt
    } else if level == 1 {
        OptLevel::Speed
    } else {
        OptLevel::SpeedAndSize
    }
}

/// Maps a TOML `opt-level` value to an optimization level.
pub fn opt_level_from(level: u8) -> (opt: OptLevel)
    ensures
        opt == opt_level_for(level),
{
    match level {
        0 => OptLevel::NoOpt,
        1 => OptLevel::Speed,
        _ => OptLevel::SpeedAndSize,
    }
}

/// One call on the wasmtime configuration builder.
#[derive(Clone, Copy, Debug, PartialEq, Eq, Structural)]
pub enum Setting {
    /// Enable or disable a WebAssembly proposal.
    Wasm(Feature, bool),
    /// Enable or disable parallel compilation.
    ParallelCompilation(bool),
    /// Select the Cranelift optimization level.
    CraneliftOptLevel(OptLevel),
    /// Use the pooling instance allocator with its default limits
    /// (`wasmtime::PoolingAllocationConfig::default()`).
    PoolingAllocator,
    /// Enable or disable async support.
    AsyncSupport(bool),
}

/// What a setting configures; two settings with the same key overwrite one another.
#[derive(Clone, Copy, Debug, PartialEq, Eq, Structural)]
pub enum SettingKey {
    Wasm(Feature),
    ParallelCompilation,
    CraneliftOptLevel,
    AllocationStrategy,
    AsyncSupport,
}

impl Setting {
    pub open spec fn key(self) -> SettingKey {
        match self {
            Setting::Wasm(f, _) => SettingKey::Wasm(f),
            Setting::ParallelCompilation(_) => SettingKey::ParallelCompilation,
            Setting::CraneliftOptLevel(_) => SettingKey::CraneliftOptLevel,
            Setting::PoolingAllocator => SettingKey::AllocationStrategy,
            Setting::AsyncSupport(_) => SettingKey::AsyncSupport,
        }
    }

    /// What this setting configures.
    pub fn key_of(&self) -> (key: SettingKey)
        ensures
            key == self.key(),
    {
        match self {
            Setting::Wasm(f, _) => SettingKey::Wasm(*f),
            Setting::ParallelCompilation(_) => SettingKey::ParallelCompilation,
            Setting::CraneliftOptLevel(_) => SettingKey::CraneliftOptLevel,
            Setting::PoolingAllocator => SettingKey::AllocationStrategy,
            Setting::AsyncSupport(_) => SettingKey::AsyncSupport,
        }
    }
}

/// The setting that counts for `key` after `log` was issued in order:
/// the last one with that key, if any.
pub open spec fn effective(log: Seq<Setting>, key: SettingKey) -> Option<Setting>
    decreases log.len(),
{
    if log.len() == 0 {
        None
    } else if log.last().key() == key {
        Some(log.last())
    } else {
        effective(log.drop_last(), key)
    }
}

/// Issuing `b` after `a`: what `b` sets wins, the rest is as `a` left it.
pub proof fn lemma_effective_concat(a: Seq<Setting>, b: Seq<Setting>, key: SettingKey)
    ensures
        effective(a + b, key) == (match effective(b, key) {
            Some(s) => Some(s),
            None => effective(a, key),
        }),
    decreases b.len(),
{
    if b.len() == 0 {
        assert(a + b =~= a);
    } else {
        assert((a + b).drop_last() =~= a + b.drop_last());
        assert((a + b).last() == b.last());
        lemma_effective_concat(a, b.drop_last(), key);
    }
}

/// The setting for feature `f` that an optional TOML value asks for.
pub open spec fn flag_setting(f: Feature, value: Option<bool>) -> Option<Setting> {
    match value {
        Some(v) => Some(Setting::Wasm(f, v)),
        None => None,
    }
}

/// The settings issued for one `[wasm]` entry: one when the value is given, none otherwise.
pub open spec fn flag_step(entry: (Feature, Option<bool>)) -> Seq<Setting> {
    match entry.1 {
        Some(v) => seq![Setting::Wasm(entry.0, v)],
        None => Seq::empty(),
    }
}

/// The settings issued for a list of `[wasm]` entries, in order.
pub open spec fn flag_plan(entries: Seq<(Feature, Option<bool>)>) -> Seq<Setting>
    decreases entries.len(),
{
    if entries.len() == 0 {
        Seq::empty()
    } else {
        flag_plan(entries.drop_last()) + flag_step(entries.last())
    }
}

/// The last given value for feature `f` in a list of entries.
pub open spec fn lookup(entries: Seq<(Feature, Option<bool>)>, f: Feature) -> Option<bool>
    decreases entries.len(),
{
    if entries.len() == 0 {
        None
    } else if entries.last().0 == f && entries.last().1 is Some {
        entries.last().1
    } else {
        lookup(entries.drop_last(), f)
    }
}

/// The settings issued for a list of entries set exactly the features the
/// entries give a value for, each to its last given value.
pub proof fn lemma_flag_plan_effective(entries: Seq<(Feature, Option<bool>)>, key: SettingKey)
    ensures
        effective(flag_plan(entries), key) == (match key {
            SettingKey::Wasm(f) => flag_setting(f, lookup(entries, f)),
            _ => None,
        }),
    decreases entries.len(),
{
    if entries.len() > 0 {
        let rest = entries.drop_last();
        let last = entries.last();
        lemma_flag_plan_effective(rest, key);
        lemma_effective_concat(flag_plan(rest), flag_step(last), key);
        match last.1 {
            Some(v) => {
                let step = flag_step(last);
                assert(step.drop_last() =~= Seq::<Setting>::empty());
                assert(effective(step.drop_last(), key) == None::<Setting>);
            },
            None => {},
        }
    }
}

} // verus!

verus! {

/// Entries that give no value issue no setting.
pub proof fn lemma_flag_plan_unset(entries: Seq<(Feature, Option<bool>)>)
    requires
        forall|i: int| 0 <= i < entries.len() ==> (#[trigger] entries[i]).1 is None,
    ensures
        flag_plan(entries) == Seq::<Setting>::empty(),
    decreases entries.len(),
{
    if entries.len() > 0 {
        let rest = entries.drop_last();
        assert forall|i: int| 0 <= i < rest.len() implies (#[trigger] rest[i]).1 is None by {
            assert(rest[i] == entries[i]);
        }
        lemma_flag_plan_unset(rest);
        assert(entries.last() == entries[entries.len() - 1]);
        assert(flag_plan(entries) =~= Seq::<Setting>::empty());
    }
}

} // verus!

verus! {

/// The setting held under `key` in a map of settings, if any.
pub open spec fn held(m: Map<SettingKey, Setting>, key: SettingKey) -> Option<Setting> {
    if m.dom().contains(key) {
        Some(m[key])
    } else {
        None
    }
}

/// A map of held settings after `setting` was issued: async support is never
/// held, every other setting replaces what its key held.
pub open spec fn record(m: Map<SettingKey, Setting>, setting: Setting) -> Map<SettingKey, Setting> {
    if setting.key() == SettingKey::AsyncSupport {
        m
    } else {
        m.insert(setting.key(), setting)
    }
}

/// The held settings after issuing `log` in order, starting from `m`.
pub open spec fn replay(m: Map<SettingKey, Setting>, log: Seq<Setting>) -> Map<SettingKey, Setting>
    decreases log.len(),
{
    if log.len() == 0 {
        m
    } else {
        record(replay(m, log.drop_last()), log.last())
    }
}

/// Except for async support, what is held after a log is what the log set
/// last, or what was held before when the log sets nothing for that key.
pub proof fn lemma_replay_held(m: Map<SettingKey, Setting>, log: Seq<Setting>, key: SettingKey)
    requires
        key != SettingKey::AsyncSupport,
    ensures
        held(replay(m, log), key) == (match effective(log, key) {
            Some(s) => Some(s),
            None => held(m, key),
        }),
    decreases log.len(),
{
    if log.len() > 0 {
        lemma_replay_held(m, log.drop_last(), key);
    }
}

/// Replaying a concatenation replays one part after the other.
pub proof fn lemma_replay_concat(m: Map<SettingKey, Setting>, a: Seq<Setting>, b: Seq<Setting>)
    ensures
        replay(m, a + b) == replay(replay(m, a), b),
    decreases b.len(),
{
    if b.len() == 0 {
        assert(a + b =~= a);
    } else {
        assert((a + b).drop_last() =~= a + b.drop_last());
        lemma_replay_concat(m, a, b.drop_last());
    }
}

} // verus!
