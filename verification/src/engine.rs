//! Building the wasmtime engine configuration.
//!
//! `EngineConfig` owns a `wasmtime::Config` and records every setting the
//! library issues on it, in order (its view). It is well formed when the
//! builder holds exactly what that record leaves, starting from wasmtime's
//! defaults; every operation keeps it so.
use vstd::prelude::*;

use crate::config::WasmtimeConfig;
use crate::laws::law_engine_settings;
use crate::settings::{
    effective, flag_plan, flag_step, held, lemma_replay_concat, lemma_replay_held,
    opt_level_from, replay, Feature, Setting, SettingKey,
};
use crate::wasmtime_api::{
    allocation_strategy_default_pooling,
    async_support,
    compiler_enabled,
    config_new,
    cranelift_opt_level,
    initial_settings,
    parallel_compilation,
    wasm_bulk_memory,
    wasm_component_model,
    wasm_custom_page_sizes,
    wasm_extended_const,
    wasm_function_references,
    wasm_gc,
    wasm_memory64,
    wasm_multi_memory,
    wasm_multi_value,
    wasm_reference_types,
    wasm_relaxed_simd,
    wasm_simd,
    wasm_stack_switching,
    wasm_tail_call,
    wasm_threads,
    wasm_wide_arithmetic,
    wasmtime_settings,
};

verus! {

/// A wasmtime engine configuration together with the settings issued on it.
pub struct EngineConfig {
    inner: wasmtime::Config,
    issued: Vec<Setting>,
}

impl View for EngineConfig {
    type V = Seq<Setting>;

    /// The settings issued on the configuration so far, in order.
    closed spec fn view(&self) -> Seq<Setting> {
        self.issued@
    }
}

impl EngineConfig {
    /// The wasmtime builder holds what the issued settings leave, starting
    /// from a fresh builder, and still has its compiler configuration.
    pub closed spec fn well_formed(self) -> bool {
        &&& wasmtime_settings(self.inner) == replay(initial_settings(), self.issued@)
        &&& compiler_enabled(self.inner)
    }

    /// The setting the wasmtime builder holds under `key`.
    pub closed spec fn holds(self, key: SettingKey) -> Option<Setting> {
        held(wasmtime_settings(self.inner), key)
    }

    /// After issuing `added` on a well-formed configuration, the builder holds
    /// what `added` set last, and what it held before for the keys `added`
    /// leaves alone.
    pub proof fn lemma_holds_after(before: EngineConfig, after: EngineConfig, added: Seq<Setting>, key: SettingKey)
        requires
            before.well_formed(),
            after.well_formed(),
            after@ == before@ + added,
            key != SettingKey::AsyncSupport,
        ensures
            after.holds(key) == (match effective(added, key) {
                Some(s) => Some(s),
                None => before.holds(key),
            }),
    {
        lemma_replay_concat(initial_settings(), before@, added);
        lemma_replay_held(replay(initial_settings(), before@), added, key);
    }

    /// A fresh wasmtime configuration with nothing issued yet.
    pub fn new() -> (config: EngineConfig)
        ensures
            config@ == Seq::<Setting>::empty(),
            config.well_formed(),
            forall|key: SettingKey| #[trigger] config.holds(key) == held(initial_settings(), key),
    {
        EngineConfig { inner: config_new(), issued: Vec::new() }
    }

    /// Issues one setting on the underlying wasmtime configuration.
    pub fn set(&mut self, setting: Setting)
        requires
            old(self).well_formed(),
        ensures
            final(self)@ == old(self)@.push(setting),
            final(self).well_formed(),
            forall|key: SettingKey|
                key != SettingKey::AsyncSupport ==> #[trigger] final(self).holds(key) == (if key
                    == setting.key() {
                    Some(setting)
                } else {
                    old(self).holds(key)
                }),
    {
        match setting {
            Setting::Wasm(feature, enable) => {
                let config = &mut self.inner;
                match feature {
                    Feature::Gc => wasm_gc(config, enable),
                    Feature::FunctionReferences => wasm_function_references(config, enable),
                    Feature::Threads => wasm_threads(config, enable),
                    Feature::Simd => wasm_simd(config, enable),
                    Feature::RelaxedSimd => wasm_relaxed_simd(config, enable),
                    Feature::BulkMemory => wasm_bulk_memory(config, enable),
                    Feature::MultiValue => wasm_multi_value(config, enable),
                    Feature::MultiMemory => wasm_multi_memory(config, enable),
                    Feature::Memory64 => wasm_memory64(config, enable),
                    Feature::TailCall => wasm_tail_call(config, enable),
                    Feature::WideArithmetic => wasm_wide_arithmetic(config, enable),
                    Feature::CustomPageSizes => wasm_custom_page_sizes(config, enable),
                    Feature::ReferenceTypes => wasm_reference_types(config, enable),
                    Feature::ExtendedConst => wasm_extended_const(config, enable),
                    Feature::ComponentModel => wasm_component_model(config, enable),
                    Feature::StackSwitching => wasm_stack_switching(config, enable),
                }
            },
            Setting::ParallelCompilation(parallel) => parallel_compilation(&mut self.inner, parallel),
            Setting::CraneliftOptLevel(level) => cranelift_opt_level(&mut self.inner, level),
            Setting::PoolingAllocator => {
                allocation_strategy_default_pooling(&mut self.inner);
            },
            Setting::AsyncSupport(enable) => async_support(&mut self.inner, enable),
        }
        self.issued.push(setting);
        proof {
            assert(self.issued@.drop_last() =~= old(self).issued@);
        }
    }

    /// The settings issued so far, in order.
    pub fn settings(&self) -> (settings: &Vec<Setting>)
        ensures
            settings@ == self@,
    {
        &self.issued
    }

    /// The setting that counts for `key`: the last one issued with that key.
    pub fn effective_setting(&self, key: SettingKey) -> (setting: Option<Setting>)
        ensures
            setting == effective(self@, key),
    {
        let mut i: usize = self.issued.len();
        proof {
            assert(self.issued@.take(i as int) =~= self.issued@);
        }
        while i > 0
            invariant
                i <= self.issued@.len(),
                effective(self@, key) == effective(self.issued@.take(i as int), key),
            decreases i,
        {
            let s = self.issued[i - 1];
            proof {
                assert(self.issued@.take(i as int).drop_last() =~= self.issued@.take(i - 1));
            }
            if s.key_of() == key {
                return Some(s);
            }
            i -= 1;
        }
        None
    }

    /// The underlying wasmtime configuration, for building an engine.
    pub fn wasmtime_config(&self) -> (config: &wasmtime::Config)
        ensures
            forall|key: SettingKey| #[trigger] held(wasmtime_settings(*config), key) == self.holds(key),
    {
        &self.inner
    }

    /// Gives up the record of settings and hands out the wasmtime configuration.
    pub fn into_wasmtime(self) -> (config: wasmtime::Config)
        ensures
            forall|key: SettingKey| #[trigger] held(wasmtime_settings(config), key) == self.holds(key),
    {
        self.inner
    }
}

impl WasmtimeConfig {
    /// Applies the TOML configuration onto an engine configuration: only the
    /// values the TOML explicitly specifies are set, `[wasm]` first, then
    /// `[codegen]`.
    pub fn apply(&self, config: &mut EngineConfig)
        requires
            old(config).well_formed(),
        ensures
            final(config)@ == old(config)@ + self.apply_plan(),
            final(config).well_formed(),
            forall|key: SettingKey|
                key != SettingKey::AsyncSupport ==> #[trigger] final(config).holds(key) == (match self.specified(key) {
                    Some(s) => Some(s),
                    None => old(config).holds(key),
                }),
    {
        let entries = self.wasm.feature_entries();
        let ghost start = config@;
        let n: usize = entries.len();
        let mut i: usize = 0;
        while i < n
            invariant
                n == entries@.len(),
                entries@ == self.wasm.entries(),
                config.well_formed(),
                i <= n,
                config@ == start + flag_plan(entries@.take(i as int)),
            decreases n - i,
        {
            let (feature, value) = entries[i];
            proof {
                assert(entries@.take(i + 1).drop_last() =~= entries@.take(i as int));
                assert(entries@.take(i + 1).last() == (feature, value));
            }
            if let Some(enable) = value {
                config.set(Setting::Wasm(feature, enable));
            }
            proof {
                assert(config@ =~= start + flag_plan(entries@.take(i as int)) + flag_step((feature, value)));
            }
            i += 1;
        }
        proof {
            assert(entries@.take(n as int) =~= entries@);
        }
        let ghost after_wasm = config@;
        if let Some(parallel) = self.codegen.parallel_compilation {
            config.set(Setting::ParallelCompilation(parallel));
        }
        if let Some(level) = self.codegen.opt_level {
            config.set(Setting::CraneliftOptLevel(opt_level_from(level)));
        }
        proof {
            assert(config@ =~= after_wasm + self.codegen.plan());
            assert(config@ =~= start + self.apply_plan());
            assert forall|key: SettingKey|
                key != SettingKey::AsyncSupport implies #[trigger] config.holds(key) == (match self.specified(key) {
                    Some(s) => Some(s),
                    None => old(config).holds(key),
                }) by {
                EngineConfig::lemma_holds_after(*old(config), *config, self.apply_plan(), key);
                self.lemma_apply_plan_effective(key);
            }
        }
    }
}

/// Whether the pooling allocator is used: only when asked for (the sandbox
/// engine), and then as the TOML says, or as auto-detection says when the
/// TOML leaves it open.
pub open spec fn uses_pooling(toml: WasmtimeConfig, include_pooling: bool, by_default: bool) -> bool {
    include_pooling && match toml.optimize.pooling_allocator {
        Some(v) => v,
        None => by_default,
    }
}

/// The settings an engine configuration is built from, in order: the shim's
/// defaults (parallel compilation on, component model on), the pooling
/// allocator when used, the TOML overrides, and async support forced on.
pub open spec fn engine_plan(toml: WasmtimeConfig, pooling: bool) -> Seq<Setting> {
    seq![Setting::ParallelCompilation(true), Setting::Wasm(Feature::ComponentModel, true)]
        + (if pooling { seq![Setting::PoolingAllocator] } else { Seq::empty() })
        + toml.apply_plan()
        + seq![Setting::AsyncSupport(true)]
}

/// What an engine configuration built from `toml` ends up with under `key`:
/// async support on; parallel compilation and the component model as the
/// TOML says, on when it says nothing; the pooling allocator with its default
/// limits exactly when it is used; every other setting as the TOML specifies it, and nothing when it
/// does not (wasmtime's default then applies).
pub open spec fn engine_setting(toml: WasmtimeConfig, pooling: bool, key: SettingKey) -> Option<Setting> {
    match key {
        SettingKey::AsyncSupport => Some(Setting::AsyncSupport(true)),
        SettingKey::ParallelCompilation => Some(Setting::ParallelCompilation(
            match toml.codegen.parallel_compilation {
                Some(v) => v,
                None => true,
            },
        )),
        SettingKey::Wasm(Feature::ComponentModel) => Some(Setting::Wasm(
            Feature::ComponentModel,
            match toml.wasm.component_model {
                Some(v) => v,
                None => true,
            },
        )),
        SettingKey::AllocationStrategy => if pooling {
            Some(Setting::PoolingAllocator)
        } else {
            None
        },
        _ => toml.specified(key),
    }
}

/// Creates an engine configuration from the TOML configuration.
///
/// `include_pooling` is true for the sandbox engine and false for the
/// compiler engine; `use_pooling_allocator_by_default` is consulted only when
/// the pooling allocator is included and the TOML leaves it open.
pub fn create_engine_config(
    toml_config: &WasmtimeConfig,
    include_pooling: bool,
    use_pooling_allocator_by_default: impl FnOnce() -> bool,
) -> (config: EngineConfig)
    requires
        include_pooling && toml_config.optimize.pooling_allocator is None ==> call_requires(
            use_pooling_allocator_by_default,
            (),
        ),
    ensures
        exists|by_default: bool|
            {
                &&& (include_pooling && toml_config.optimize.pooling_allocator is None
                    ==> call_ensures(use_pooling_allocator_by_default, (), by_default))
                &&& config@ == engine_plan(
                    *toml_config,
                    uses_pooling(*toml_config, include_pooling, by_default),
                )
                &&& forall|key: SettingKey|
                    key != SettingKey::AsyncSupport ==> #[trigger] config.holds(key)
                        == engine_setting(
                        *toml_config,
                        uses_pooling(*toml_config, include_pooling, by_default),
                        key,
                    )
                &&& (include_pooling && toml_config.optimize.pooling_allocator is None
                    ==> (config.holds(SettingKey::AllocationStrategy) == Some(Setting::PoolingAllocator)
                    <==> by_default))
            },
        toml_config.optimize.pooling_allocator is Some ==> (config.holds(SettingKey::AllocationStrategy)
            == Some(Setting::PoolingAllocator) <==> include_pooling
            && toml_config.optimize.pooling_allocator->0),
        !include_pooling ==> config.holds(SettingKey::AllocationStrategy) is None,
        config.holds(SettingKey::AllocationStrategy) is None || config.holds(SettingKey::AllocationStrategy)
            == Some(Setting::PoolingAllocator),
        config.well_formed(),
{
    let mut config = EngineConfig::new();
    config.set(Setting::ParallelCompilation(true));
    config.set(Setting::Wasm(Feature::ComponentModel, true));
    let ghost mut by_default = false;
    if include_pooling {
        let use_pooling = match toml_config.optimize.pooling_allocator {
            Some(v) => v,
            None => {
                let detected = use_pooling_allocator_by_default();
                proof {
                    by_default = detected;
                }
                detected
            },
        };
        if use_pooling {
            config.set(Setting::PoolingAllocator);
        }
    }
    toml_config.apply(&mut config);
    config.set(Setting::AsyncSupport(true));
    proof {
        let pooling = uses_pooling(*toml_config, include_pooling, by_default);
        assert(config@ =~= engine_plan(*toml_config, pooling));
        assert forall|key: SettingKey|
            key != SettingKey::AsyncSupport implies #[trigger] config.holds(key) == engine_setting(
                *toml_config,
                pooling,
                key,
            ) by {
            lemma_replay_held(initial_settings(), config@, key);
            law_engine_settings(*toml_config, pooling, key);
        }
        assert(config.holds(SettingKey::AllocationStrategy) == engine_setting(
            *toml_config,
            pooling,
            SettingKey::AllocationStrategy,
        ));
        assert(config@ == engine_plan(*toml_config, pooling));
    }
    config
}

} // verus!
