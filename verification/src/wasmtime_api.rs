//! The wasmtime configuration builder, as the library sees it.
//!
//! A `wasmtime::Config` is opaque here. What the library configures on it is
//! named by `wasmtime_settings`: per setting key, the setting the builder
//! holds explicitly. Each wrapper below states how its wasmtime setter changes
//! that map, as the setter's source shows: it records exactly its own setting
//! and leaves every other one alone.
use vstd::prelude::*;

use crate::settings::{Feature, OptLevel, Setting, SettingKey};

verus! {

#[verifier::external_type_specification]
#[verifier::external_body]
pub struct ExWasmtimeConfig(wasmtime::Config);

/// The settings a `wasmtime::Config` holds explicitly, by key: a wasm feature
/// once its setter was called (wasmtime's own per-feature defaults are not
/// part of this map), parallel compilation, the Cranelift `opt_level`
/// compiler setting once set, and the allocation strategy when it is the
/// pooling allocator with its default limits (`PoolingAllocator`). Async support is never held: the setter has no effect.
pub uninterp spec fn wasmtime_settings(config: wasmtime::Config) -> Map<SettingKey, Setting>;

/// Whether the builder still has its compiler configuration (compiler
/// settings panic without one).
pub uninterp spec fn compiler_enabled(config: wasmtime::Config) -> bool;

/// What a fresh builder holds: parallel compilation on, nothing else.
pub open spec fn initial_settings() -> Map<SettingKey, Setting> {
    Map::empty().insert(SettingKey::ParallelCompilation, Setting::ParallelCompilation(true))
}

/// `after` is `before` with `setting` recorded under its key and the
/// compiler configuration kept.
pub open spec fn records(before: wasmtime::Config, after: wasmtime::Config, setting: Setting) -> bool {
    &&& wasmtime_settings(after) == wasmtime_settings(before).insert(setting.key(), setting)
    &&& compiler_enabled(after) == compiler_enabled(before)
}

/// `wasmtime::Config::new`: a builder with the compiler configured, parallel
/// compilation on (wasmtime's documented default; its source turns it off
/// only in Miri builds, which this claim does not cover) and no feature, opt
/// level or allocation strategy set.
#[verifier::external_body]
pub(crate) fn config_new() -> (config: wasmtime::Config)
    ensures
        wasmtime_settings(config) == initial_settings(),
        compiler_enabled(config),
{
    wasmtime::Config::new()
}

/// `wasmtime::Config::wasm_gc`: explicitly enables or disables the GC
/// proposal (its feature flag, whatever bits that flag covers, in the builder's
/// enabled and disabled feature sets).
#[verifier::external_body]
pub(crate) fn wasm_gc(config: &mut wasmtime::Config, enable: bool)
    ensures
        records(*old(config), *final(config), Setting::Wasm(Feature::Gc, enable)),
{
    config.wasm_gc(enable);
}

/// `wasmtime::Config::wasm_function_references`: explicitly enables or disables the function references
/// proposal (its feature flag, whatever bits that flag covers, in the builder's
/// enabled and disabled feature sets).
#[verifier::external_body]
pub(crate) fn wasm_function_references(config: &mut wasmtime::Config, enable: bool)
    ensures
        records(*old(config), *final(config), Setting::Wasm(Feature::FunctionReferences, enable)),
{
    config.wasm_function_references(enable);
}

/// `wasmtime::Config::wasm_threads`: explicitly enables or disables the threads
/// proposal (its feature flag, whatever bits that flag covers, in the builder's
/// enabled and disabled feature sets).
#[verifier::external_body]
pub(crate) fn wasm_threads(config: &mut wasmtime::Config, enable: bool)
    ensures
        records(*old(config), *final(config), Setting::Wasm(Feature::Threads, enable)),
{
    config.wasm_threads(enable);
}

/// `wasmtime::Config::wasm_simd`: explicitly enables or disables the SIMD
/// proposal (its feature flag, whatever bits that flag covers, in the builder's
/// enabled and disabled feature sets).
#[verifier::external_body]
pub(crate) fn wasm_simd(config: &mut wasmtime::Config, enable: bool)
    ensures
        records(*old(config), *final(config), Setting::Wasm(Feature::Simd, enable)),
{
    config.wasm_simd(enable);
}

/// `wasmtime::Config::wasm_relaxed_simd`: explicitly enables or disables the relaxed SIMD
/// proposal (its feature flag, whatever bits that flag covers, in the builder's
/// enabled and disabled feature sets).
#[verifier::external_body]
pub(crate) fn wasm_relaxed_simd(config: &mut wasmtime::Config, enable: bool)
    ensures
        records(*old(config), *final(config), Setting::Wasm(Feature::RelaxedSimd, enable)),
{
    config.wasm_relaxed_simd(enable);
}

/// `wasmtime::Config::wasm_bulk_memory`: explicitly enables or disables the bulk memory
/// proposal (its feature flag, whatever bits that flag covers, in the builder's
/// enabled and disabled feature sets).
#[verifier::external_body]
pub(crate) fn wasm_bulk_memory(config: &mut wasmtime::Config, enable: bool)
    ensures
        records(*old(config), *final(config), Setting::Wasm(Feature::BulkMemory, enable)),
{
    config.wasm_bulk_memory(enable);
}

/// `wasmtime::Config::wasm_multi_value`: explicitly enables or disables the multi-value
/// proposal (its feature flag, whatever bits that flag covers, in the builder's
/// enabled and disabled feature sets).
#[verifier::external_body]
pub(crate) fn wasm_multi_value(config: &mut wasmtime::Config, enable: bool)
    ensures
        records(*old(config), *final(config), Setting::Wasm(Feature::MultiValue, enable)),
{
    config.wasm_multi_value(enable);
}

/// `wasmtime::Config::wasm_multi_memory`: explicitly enables or disables the multi-memory
/// proposal (its feature flag, whatever bits that flag covers, in the builder's
/// enabled and disabled feature sets).
#[verifier::external_body]
pub(crate) fn wasm_multi_memory(config: &mut wasmtime::Config, enable: bool)
    ensures
        records(*old(config), *final(config), Setting::Wasm(Feature::MultiMemory, enable)),
{
    config.wasm_multi_memory(enable);
}

/// `wasmtime::Config::wasm_memory64`: explicitly enables or disables the 64-bit memory
/// proposal (its feature flag, whatever bits that flag covers, in the builder's
/// enabled and disabled feature sets).
#[verifier::external_body]
pub(crate) fn wasm_memory64(config: &mut wasmtime::Config, enable: bool)
    ensures
        records(*old(config), *final(config), Setting::Wasm(Feature::Memory64, enable)),
{
    config.wasm_memory64(enable);
}

/// `wasmtime::Config::wasm_tail_call`: explicitly enables or disables the tail call
/// proposal (its feature flag, whatever bits that flag covers, in the builder's
/// enabled and disabled feature sets).
#[verifier::external_body]
pub(crate) fn wasm_tail_call(config: &mut wasmtime::Config, enable: bool)
    ensures
        records(*old(config), *final(config), Setting::Wasm(Feature::TailCall, enable)),
{
    config.wasm_tail_call(enable);
}

/// `wasmtime::Config::wasm_wide_arithmetic`: explicitly enables or disables the wide arithmetic
/// proposal (its feature flag, whatever bits that flag covers, in the builder's
/// enabled and disabled feature sets).
#[verifier::external_body]
pub(crate) fn wasm_wide_arithmetic(config: &mut wasmtime::Config, enable: bool)
    ensures
        records(*old(config), *final(config), Setting::Wasm(Feature::WideArithmetic, enable)),
{
    config.wasm_wide_arithmetic(enable);
}

/// `wasmtime::Config::wasm_custom_page_sizes`: explicitly enables or disables the custom page sizes
/// proposal (its feature flag, whatever bits that flag covers, in the builder's
/// enabled and disabled feature sets).
#[verifier::external_body]
pub(crate) fn wasm_custom_page_sizes(config: &mut wasmtime::Config, enable: bool)
    ensures
        records(*old(config), *final(config), Setting::Wasm(Feature::CustomPageSizes, enable)),
{
    config.wasm_custom_page_sizes(enable);
}

/// `wasmtime::Config::wasm_reference_types`: explicitly enables or disables the reference types
/// proposal (its feature flag, whatever bits that flag covers, in the builder's
/// enabled and disabled feature sets).
#[verifier::external_body]
pub(crate) fn wasm_reference_types(config: &mut wasmtime::Config, enable: bool)
    ensures
        records(*old(config), *final(config), Setting::Wasm(Feature::ReferenceTypes, enable)),
{
    config.wasm_reference_types(enable);
}

/// `wasmtime::Config::wasm_extended_const`: explicitly enables or disables the extended constant expressions
/// proposal (its feature flag, whatever bits that flag covers, in the builder's
/// enabled and disabled feature sets).
#[verifier::external_body]
pub(crate) fn wasm_extended_const(config: &mut wasmtime::Config, enable: bool)
    ensures
        records(*old(config), *final(config), Setting::Wasm(Feature::ExtendedConst, enable)),
{
    config.wasm_extended_const(enable);
}

/// `wasmtime::Config::wasm_component_model`: explicitly enables or disables the component model
/// proposal (its feature flag, whatever bits that flag covers, in the builder's
/// enabled and disabled feature sets).
#[verifier::external_body]
pub(crate) fn wasm_component_model(config: &mut wasmtime::Config, enable: bool)
    ensures
        records(*old(config), *final(config), Setting::Wasm(Feature::ComponentModel, enable)),
{
    config.wasm_component_model(enable);
}

/// `wasmtime::Config::wasm_stack_switching`: explicitly enables or disables the stack switching
/// proposal (its feature flag, whatever bits that flag covers, in the builder's
/// enabled and disabled feature sets).
#[verifier::external_body]
pub(crate) fn wasm_stack_switching(config: &mut wasmtime::Config, enable: bool)
    ensures
        records(*old(config), *final(config), Setting::Wasm(Feature::StackSwitching, enable)),
{
    config.wasm_stack_switching(enable);
}

/// `wasmtime::Config::parallel_compilation`: sets whether modules are
/// compiled on several threads.
#[verifier::external_body]
pub(crate) fn parallel_compilation(config: &mut wasmtime::Config, parallel: bool)
    ensures
        records(*old(config), *final(config), Setting::ParallelCompilation(parallel)),
{
    config.parallel_compilation(parallel);
}

/// `wasmtime::Config::cranelift_opt_level`, with the level converted variant
/// for variant to `wasmtime::OptLevel`: sets the compiler's `opt_level`
/// setting. wasmtime panics when the compiler configuration is gone, so it is
/// required.
#[verifier::external_body]
pub(crate) fn cranelift_opt_level(config: &mut wasmtime::Config, level: OptLevel)
    requires
        compiler_enabled(*old(config)),
    ensures
        records(*old(config), *final(config), Setting::CraneliftOptLevel(level)),
{
    let level = match level {
        OptLevel::NoOpt => wasmtime::OptLevel::None,
        OptLevel::Speed => wasmtime::OptLevel::Speed,
        OptLevel::SpeedAndSize => wasmtime::OptLevel::SpeedAndSize,
    };
    config.cranelift_opt_level(level);
}

/// `wasmtime::Config::allocation_strategy` with
/// `wasmtime::InstanceAllocationStrategy::Pooling(wasmtime::PoolingAllocationConfig::default())`:
/// selects the pooling allocator with its default limits, which is what
/// `Setting::PoolingAllocator` stands for.
#[verifier::external_body]
pub(crate) fn allocation_strategy_default_pooling(config: &mut wasmtime::Config)
    ensures
        records(*old(config), *final(config), Setting::PoolingAllocator),
{
    config.allocation_strategy(wasmtime::InstanceAllocationStrategy::Pooling(
        wasmtime::PoolingAllocationConfig::default(),
    ));
}

/// `wasmtime::Config::async_support`: in this wasmtime version a no-op kept
/// for compatibility, so the builder is left as it was.
#[verifier::external_body]
#[allow(deprecated)]
pub(crate) fn async_support(config: &mut wasmtime::Config, enable: bool)
    ensures
        wasmtime_settings(*final(config)) == wasmtime_settings(*old(config)),
        compiler_enabled(*final(config)) == compiler_enabled(*old(config)),
{
    config.async_support(enable);
}

} // verus!
