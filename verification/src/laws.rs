//! Properties of the engine configuration that hold for every TOML
//! configuration.
use vstd::prelude::*;

use crate::config::WasmtimeConfig;
use crate::engine::{engine_plan, engine_setting, uses_pooling};
use crate::settings::{
    effective, lemma_effective_concat, lemma_flag_plan_unset, Feature, Setting, SettingKey,
};

verus! {

/// Applying a TOML configuration sets exactly the values it specifies and
/// leaves every other setting as it was.
pub proof fn law_apply_sets_only_specified(toml: WasmtimeConfig, before: Seq<Setting>, key: SettingKey)
    ensures
        effective(before + toml.apply_plan(), key) == (match toml.specified(key) {
            Some(s) => Some(s),
            None => effective(before, key),
        }),
{
    lemma_effective_concat(before, toml.apply_plan(), key);
    toml.lemma_apply_plan_effective(key);
}

/// Applying the same TOML configuration a second time changes nothing.
pub proof fn law_apply_idempotent(toml: WasmtimeConfig, before: Seq<Setting>, key: SettingKey)
    ensures
        effective(before + toml.apply_plan() + toml.apply_plan(), key) == effective(
            before + toml.apply_plan(),
            key,
        ),
{
    law_apply_sets_only_specified(toml, before + toml.apply_plan(), key);
    law_apply_sets_only_specified(toml, before, key);
}

/// A configuration that specifies nothing (an empty file) applies nothing.
pub proof fn law_unset_config_applies_nothing()
    ensures
        WasmtimeConfig::unset().apply_plan() == Seq::<Setting>::empty(),
{
    let toml = WasmtimeConfig::unset();
    lemma_flag_plan_unset(toml.wasm.entries());
    assert(toml.codegen.plan() =~= Seq::<Setting>::empty());
    assert(toml.apply_plan() =~= Seq::<Setting>::empty());
}

/// The engine configuration's effective settings: TOML values override the
/// shim's defaults, the pooling allocator is set exactly when used, and async
/// support is always on, whatever the TOML says.
pub proof fn law_engine_settings(toml: WasmtimeConfig, pooling: bool, key: SettingKey)
    ensures
        effective(engine_plan(toml, pooling), key) == engine_setting(toml, pooling, key),
{
    let defaults = seq![Setting::ParallelCompilation(true), Setting::Wasm(Feature::ComponentModel, true)];
    let pool: Seq<Setting> = if pooling { seq![Setting::PoolingAllocator] } else { Seq::empty() };
    let tail = seq![Setting::AsyncSupport(true)];
    lemma_effective_concat(defaults + pool + toml.apply_plan(), tail, key);
    lemma_effective_concat(defaults + pool, toml.apply_plan(), key);
    lemma_effective_concat(defaults, pool, key);
    toml.lemma_apply_plan_effective(key);
    reveal_with_fuel(effective, 3);
    assert(tail.drop_last() =~= Seq::<Setting>::empty());
    assert(defaults.drop_last() =~= seq![Setting::ParallelCompilation(true)]);
    assert(defaults.drop_last().drop_last() =~= Seq::<Setting>::empty());
    if pooling {
        assert(pool.drop_last() =~= Seq::<Setting>::empty());
    }
}

/// The compiler engine (pooling not included) never gets the pooling
/// allocator, whatever the TOML or auto-detection says.
pub proof fn law_compiler_engine_never_pools(toml: WasmtimeConfig, by_default: bool)
    ensures
        effective(engine_plan(toml, uses_pooling(toml, false, by_default)), SettingKey::AllocationStrategy)
            is None,
{
    law_engine_settings(toml, uses_pooling(toml, false, by_default), SettingKey::AllocationStrategy);
}

/// For the sandbox engine, when the TOML leaves the pooling allocator open,
/// auto-detection alone decides, whatever the other sections hold.
pub proof fn law_auto_detection_decides_open_pooling(toml: WasmtimeConfig, detected: bool)
    requires
        toml.optimize.pooling_allocator is None,
    ensures
        uses_pooling(toml, true, detected) == detected,
        effective(engine_plan(toml, uses_pooling(toml, true, detected)), SettingKey::AllocationStrategy)
            == (if detected { Some(Setting::PoolingAllocator) } else { None::<Setting> }),
{
    law_engine_settings(toml, uses_pooling(toml, true, detected), SettingKey::AllocationStrategy);
}

/// When the TOML says whether to pool, auto-detection has no say.
pub proof fn law_toml_pooling_overrides_detection(
    toml: WasmtimeConfig,
    include_pooling: bool,
    detected_a: bool,
    detected_b: bool,
)
    requires
        toml.optimize.pooling_allocator is Some,
    ensures
        uses_pooling(toml, include_pooling, detected_a) == uses_pooling(toml, include_pooling, detected_b),
        uses_pooling(toml, include_pooling, detected_a) == (include_pooling
            && toml.optimize.pooling_allocator->0),
{
}

} // verus!
