use runwasi_shims::config::{CodegenConfig, OptimizeConfig, WasmConfig, WasmtimeConfig};
use runwasi_shims::engine::{create_engine_config, EngineConfig};
use runwasi_shims::settings::{opt_level_from, Feature, OptLevel, Setting, SettingKey};

fn gc_and_function_refs() -> WasmtimeConfig {
    let mut config = WasmtimeConfig::default();
    config.wasm.gc = Some(true);
    config.wasm.function_references = Some(true);
    config
}

#[test]
fn test_apply_default_produces_valid_engine() {
    let config = WasmtimeConfig::default();
    let mut wt_config = EngineConfig::new();
    config.apply(&mut wt_config);
    wt_config.set(Setting::AsyncSupport(true));
    wasmtime::Engine::new(wt_config.wasmtime_config()).expect("engine creation should succeed");
}

#[test]
fn test_apply_gc_and_function_refs() {
    let config = gc_and_function_refs();
    let mut wt_config = EngineConfig::new();
    wt_config.set(Setting::AsyncSupport(true));
    config.apply(&mut wt_config);
    wasmtime::Engine::new(wt_config.wasmtime_config())
        .expect("engine should support gc + function-references");
}

#[test]
fn test_create_engine_config_defaults() {
    let config = WasmtimeConfig::default();
    let wt_config = create_engine_config(&config, false, || false);
    wasmtime::Engine::new(wt_config.wasmtime_config()).expect("engine creation should succeed");
}

#[test]
fn test_create_engine_config_with_pooling_auto_detect_false() {
    let config = WasmtimeConfig::default();
    let wt_config = create_engine_config(&config, true, || false);
    wasmtime::Engine::new(wt_config.wasmtime_config()).expect("engine creation should succeed");
}

#[test]
fn test_create_engine_config_toml_overrides() {
    let mut config = gc_and_function_refs();
    config.codegen.opt_level = Some(2);
    let wt_config = create_engine_config(&config, false, || false);
    wasmtime::Engine::new(wt_config.wasmtime_config()).expect("engine creation should succeed");
}

#[test]
fn default_config_is_all_unset() {
    let config = WasmtimeConfig::default();
    assert_eq!(config.wasm.gc, None);
    assert_eq!(config.wasm.stack_switching, None);
    assert_eq!(config.codegen, CodegenConfig { parallel_compilation: None, opt_level: None });
    assert_eq!(config.optimize, OptimizeConfig { pooling_allocator: None });
    assert_eq!(config.wasm, WasmConfig::default());
}

#[test]
fn opt_level_mapping() {
    assert_eq!(opt_level_from(0), OptLevel::NoOpt);
    assert_eq!(opt_level_from(1), OptLevel::Speed);
    assert_eq!(opt_level_from(2), OptLevel::SpeedAndSize);
    assert_eq!(opt_level_from(255), OptLevel::SpeedAndSize);
}

#[test]
fn apply_default_issues_nothing() {
    let config = WasmtimeConfig::default();
    let mut wt_config = EngineConfig::new();
    config.apply(&mut wt_config);
    assert!(wt_config.settings().is_empty());
}

#[test]
fn apply_issues_only_given_values_in_order() {
    let mut config = WasmtimeConfig::default();
    config.wasm.threads = Some(false);
    config.wasm.gc = Some(true);
    config.wasm.stack_switching = Some(false);
    config.codegen.opt_level = Some(0);
    config.codegen.parallel_compilation = Some(false);
    let mut wt_config = EngineConfig::new();
    config.apply(&mut wt_config);
    assert_eq!(
        wt_config.settings(),
        &vec![
            Setting::Wasm(Feature::Gc, true),
            Setting::Wasm(Feature::Threads, false),
            Setting::Wasm(Feature::StackSwitching, false),
            Setting::ParallelCompilation(false),
            Setting::CraneliftOptLevel(OptLevel::NoOpt),
        ]
    );
}

#[test]
fn apply_keeps_what_toml_leaves_open() {
    let mut config = WasmtimeConfig::default();
    config.wasm.simd = Some(false);
    let mut wt_config = EngineConfig::new();
    wt_config.set(Setting::Wasm(Feature::Memory64, true));
    wt_config.set(Setting::Wasm(Feature::Simd, true));
    config.apply(&mut wt_config);
    assert_eq!(
        wt_config.effective_setting(SettingKey::Wasm(Feature::Memory64)),
        Some(Setting::Wasm(Feature::Memory64, true))
    );
    assert_eq!(
        wt_config.effective_setting(SettingKey::Wasm(Feature::Simd)),
        Some(Setting::Wasm(Feature::Simd, false))
    );
    assert_eq!(wt_config.effective_setting(SettingKey::Wasm(Feature::Gc)), None);
}

#[test]
fn engine_defaults_sequence() {
    let config = WasmtimeConfig::default();
    let wt_config = create_engine_config(&config, false, || true);
    assert_eq!(
        wt_config.settings(),
        &vec![
            Setting::ParallelCompilation(true),
            Setting::Wasm(Feature::ComponentModel, true),
            Setting::AsyncSupport(true),
        ]
    );
}

#[test]
fn engine_async_support_always_on() {
    let mut config = WasmtimeConfig::default();
    config.wasm.component_model = Some(false);
    config.codegen.parallel_compilation = Some(false);
    let wt_config = create_engine_config(&config, true, || false);
    assert_eq!(
        wt_config.effective_setting(SettingKey::AsyncSupport),
        Some(Setting::AsyncSupport(true))
    );
    assert_eq!(
        wt_config.effective_setting(SettingKey::Wasm(Feature::ComponentModel)),
        Some(Setting::Wasm(Feature::ComponentModel, false))
    );
    assert_eq!(
        wt_config.effective_setting(SettingKey::ParallelCompilation),
        Some(Setting::ParallelCompilation(false))
    );
    assert_eq!(wt_config.effective_setting(SettingKey::AllocationStrategy), None);
}

#[test]
fn engine_pooling_from_auto_detection() {
    let config = WasmtimeConfig::default();
    let wt_config = create_engine_config(&config, true, || true);
    assert_eq!(
        wt_config.effective_setting(SettingKey::AllocationStrategy),
        Some(Setting::PoolingAllocator)
    );
    assert_eq!(
        wt_config.settings(),
        &vec![
            Setting::ParallelCompilation(true),
            Setting::Wasm(Feature::ComponentModel, true),
            Setting::PoolingAllocator,
            Setting::AsyncSupport(true),
        ]
    );
}

#[test]
fn engine_toml_pooling_overrides_detection() {
    let mut config = WasmtimeConfig::default();
    config.optimize.pooling_allocator = Some(false);
    let wt_config = create_engine_config(&config, true, || panic!("auto-detection must not run"));
    assert_eq!(wt_config.effective_setting(SettingKey::AllocationStrategy), None);

    config.optimize.pooling_allocator = Some(true);
    let wt_config = create_engine_config(&config, true, || panic!("auto-detection must not run"));
    assert_eq!(
        wt_config.effective_setting(SettingKey::AllocationStrategy),
        Some(Setting::PoolingAllocator)
    );
}

#[test]
fn compiler_engine_never_pools() {
    let mut config = WasmtimeConfig::default();
    config.optimize.pooling_allocator = Some(true);
    let wt_config = create_engine_config(&config, false, || panic!("auto-detection must not run"));
    assert_eq!(wt_config.effective_setting(SettingKey::AllocationStrategy), None);
}

#[test]
fn engine_full_config_builds() {
    let mut config = WasmtimeConfig::default();
    config.wasm.gc = Some(true);
    config.wasm.function_references = Some(true);
    config.wasm.component_model = Some(true);
    config.wasm.threads = Some(false);
    config.codegen.parallel_compilation = Some(false);
    config.codegen.opt_level = Some(1);
    let wt_config = create_engine_config(&config, false, || false);
    assert_eq!(
        wt_config.effective_setting(SettingKey::CraneliftOptLevel),
        Some(Setting::CraneliftOptLevel(OptLevel::Speed))
    );
    wasmtime::Engine::new(wt_config.wasmtime_config()).expect("engine creation should succeed");
}

#[test]
fn apply_twice_same_effect() {
    let mut config = WasmtimeConfig::default();
    config.wasm.gc = Some(false);
    config.codegen.opt_level = Some(7);
    let mut once = EngineConfig::new();
    config.apply(&mut once);
    let mut twice = EngineConfig::new();
    config.apply(&mut twice);
    config.apply(&mut twice);
    for key in [
        SettingKey::Wasm(Feature::Gc),
        SettingKey::Wasm(Feature::Simd),
        SettingKey::CraneliftOptLevel,
        SettingKey::ParallelCompilation,
        SettingKey::AllocationStrategy,
    ] {
        assert_eq!(once.effective_setting(key), twice.effective_setting(key));
    }
    assert_eq!(
        twice.effective_setting(SettingKey::CraneliftOptLevel),
        Some(Setting::CraneliftOptLevel(OptLevel::SpeedAndSize))
    );
}

fn with_feature(f: Feature, v: bool) -> WasmtimeConfig {
    let mut config = WasmtimeConfig::default();
    let w = &mut config.wasm;
    let slot = match f {
        Feature::Gc => &mut w.gc,
        Feature::FunctionReferences => &mut w.function_references,
        Feature::Threads => &mut w.threads,
        Feature::Simd => &mut w.simd,
        Feature::RelaxedSimd => &mut w.relaxed_simd,
        Feature::BulkMemory => &mut w.bulk_memory,
        Feature::MultiValue => &mut w.multi_value,
        Feature::MultiMemory => &mut w.multi_memory,
        Feature::Memory64 => &mut w.memory64,
        Feature::TailCall => &mut w.tail_call,
        Feature::WideArithmetic => &mut w.wide_arithmetic,
        Feature::CustomPageSizes => &mut w.custom_page_sizes,
        Feature::ReferenceTypes => &mut w.reference_types,
        Feature::ExtendedConst => &mut w.extended_const,
        Feature::ComponentModel => &mut w.component_model,
        Feature::StackSwitching => &mut w.stack_switching,
    };
    *slot = Some(v);
    config
}

#[test]
fn wasmtime_builder_receives_each_feature() {
    let features = [
        (Feature::Gc, "wasm_gc"),
        (Feature::FunctionReferences, "wasm_function_references"),
        (Feature::Threads, "wasm_threads"),
        (Feature::Simd, "wasm_simd"),
        (Feature::RelaxedSimd, "wasm_relaxed_simd"),
        (Feature::BulkMemory, "wasm_bulk_memory"),
        (Feature::MultiValue, "wasm_multi_value"),
        (Feature::MultiMemory, "wasm_multi_memory"),
        (Feature::Memory64, "wasm_memory64"),
        (Feature::TailCall, "wasm_tail_call"),
        (Feature::WideArithmetic, "wasm_wide_arithmetic"),
        (Feature::CustomPageSizes, "wasm_custom_page_sizes"),
        (Feature::ReferenceTypes, "wasm_reference_types"),
        (Feature::ExtendedConst, "wasm_extended_const"),
        (Feature::ComponentModel, "wasm_component_model"),
        (Feature::StackSwitching, "wasm_stack_switching"),
    ];
    for (feature, name) in features {
        for value in [true, false] {
            let config = with_feature(feature, value);
            let mut wt_config = EngineConfig::new();
            config.apply(&mut wt_config);
            let shown = format!("{:?}", wt_config.wasmtime_config());
            assert!(shown.contains(&format!("{name}: {value}")), "{name} = {value} in {shown}");
        }
    }
}

#[test]
fn wasmtime_builder_receives_codegen() {
    let mut config = WasmtimeConfig::default();
    config.codegen.parallel_compilation = Some(false);
    config.codegen.opt_level = Some(0);
    let mut wt_config = EngineConfig::new();
    config.apply(&mut wt_config);
    let shown = format!("{:?}", wt_config.wasmtime_config());
    assert!(shown.contains("parallel_compilation: false"), "{shown}");
    assert!(shown.contains("\"opt_level\": \"none\""), "{shown}");

    let wt_config = create_engine_config(&WasmtimeConfig::default(), false, || false);
    let shown = format!("{:?}", wt_config.into_wasmtime());
    assert!(shown.contains("parallel_compilation: true"), "{shown}");
    assert!(shown.contains("wasm_component_model: true"), "{shown}");
}

#[test]
fn component_model_warning_owed_only_when_disabled() {
    let mut config = WasmtimeConfig::default();
    assert!(!config.disables_component_model());
    config.wasm.component_model = Some(true);
    assert!(!config.disables_component_model());
    config.wasm.component_model = Some(false);
    assert!(config.disables_component_model());
}
