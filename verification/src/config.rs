//! The wasmtime TOML configuration: what each section holds, and the settings
//! each section asks for.
//!
//! Every field is optional; a field that is absent keeps the shim's default.
use vstd::prelude::*;

use crate::settings::{
    effective, flag_plan, flag_setting, lemma_effective_concat, lemma_flag_plan_effective, lookup,
    opt_level_for, Feature, Setting, SettingKey,
};

verus! {

/// Top-level wasmtime TOML configuration.
#[derive(Debug, PartialEq, Eq, Structural)]
pub struct WasmtimeConfig {
    pub wasm: WasmConfig,
    pub codegen: CodegenConfig,
    pub optimize: OptimizeConfig,
}

/// Wasm feature flags (`[wasm]` section).
#[derive(Debug, PartialEq, Eq, Structural)]
pub struct WasmConfig {
    pub gc: Option<bool>,
    pub function_references: Option<bool>,
    pub threads: Option<bool>,
    pub simd: Option<bool>,
    pub relaxed_simd: Option<bool>,
    pub bulk_memory: Option<bool>,
    pub multi_value: Option<bool>,
    pub multi_memory: Option<bool>,
    pub memory64: Option<bool>,
    pub tail_call: Option<bool>,
    pub wide_arithmetic: Option<bool>,
    pub custom_page_sizes: Option<bool>,
    pub reference_types: Option<bool>,
    pub extended_const: Option<bool>,
    pub component_model: Option<bool>,
    pub stack_switching: Option<bool>,
}

/// Codegen settings (`[codegen]` section).
#[derive(Debug, PartialEq, Eq, Structural)]
pub struct CodegenConfig {
    pub parallel_compilation: Option<bool>,
    /// Optimization level: 0 = None, 1 = Speed, 2 = SpeedAndSize.
    pub opt_level: Option<u8>,
}

/// Optimization/allocator settings (`[optimize]` section).
#[derive(Debug, PartialEq, Eq, Structural)]
pub struct OptimizeConfig {
    /// `Some(true)` forces the pooling allocator on, `Some(false)` forces it
    /// off, `None` leaves the choice to auto-detection.
    pub pooling_allocator: Option<bool>,
}

impl WasmConfig {
    /// The section with no field given.
    pub open spec fn unset() -> WasmConfig {
        WasmConfig {
            gc: None,
            function_references: None,
            threads: None,
            simd: None,
            relaxed_simd: None,
            bulk_memory: None,
            multi_value: None,
            multi_memory: None,
            memory64: None,
            tail_call: None,
            wide_arithmetic: None,
            custom_page_sizes: None,
            reference_types: None,
            extended_const: None,
            component_model: None,
            stack_switching: None,
        }
    }

    /// The value the section gives for feature `f`.
    pub open spec fn feature(self, f: Feature) -> Option<bool> {
        match f {
            Feature::Gc => self.gc,
            Feature::FunctionReferences => self.function_references,
            Feature::Threads => self.threads,
            Feature::Simd => self.simd,
            Feature::RelaxedSimd => self.relaxed_simd,
            Feature::BulkMemory => self.bulk_memory,
            Feature::MultiValue => self.multi_value,
            Feature::MultiMemory => self.multi_memory,
            Feature::Memory64 => self.memory64,
            Feature::TailCall => self.tail_call,
            Feature::WideArithmetic => self.wide_arithmetic,
            Feature::CustomPageSizes => self.custom_page_sizes,
            Feature::ReferenceTypes => self.reference_types,
            Feature::ExtendedConst => self.extended_const,
            Feature::ComponentModel => self.component_model,
            Feature::StackSwitching => self.stack_switching,
        }
    }

    /// The section's fields as (feature, value) pairs, in the order in which
    /// they are applied.
    pub open spec fn entries(self) -> Seq<(Feature, Option<bool>)> {
        seq![
            (Feature::Gc, self.gc),
            (Feature::FunctionReferences, self.function_references),
            (Feature::Threads, self.threads),
            (Feature::Simd, self.simd),
            (Feature::RelaxedSimd, self.relaxed_simd),
            (Feature::BulkMemory, self.bulk_memory),
            (Feature::MultiValue, self.multi_value),
            (Feature::MultiMemory, self.multi_memory),
            (Feature::Memory64, self.memory64),
            (Feature::TailCall, self.tail_call),
            (Feature::WideArithmetic, self.wide_arithmetic),
            (Feature::CustomPageSizes, self.custom_page_sizes),
            (Feature::ReferenceTypes, self.reference_types),
            (Feature::ExtendedConst, self.extended_const),
            (Feature::ComponentModel, self.component_model),
            (Feature::StackSwitching, self.stack_switching),
        ]
    }

    /// The section's fields as (feature, value) pairs, in application order.
    pub fn feature_entries(&self) -> (entries: Vec<(Feature, Option<bool>)>)
        ensures
            entries@ == self.entries(),
    {
        vec![
            (Feature::Gc, self.gc),
            (Feature::FunctionReferences, self.function_references),
            (Feature::Threads, self.threads),
            (Feature::Simd, self.simd),
            (Feature::RelaxedSimd, self.relaxed_simd),
            (Feature::BulkMemory, self.bulk_memory),
            (Feature::MultiValue, self.multi_value),
            (Feature::MultiMemory, self.multi_memory),
            (Feature::Memory64, self.memory64),
            (Feature::TailCall, self.tail_call),
            (Feature::WideArithmetic, self.wide_arithmetic),
            (Feature::CustomPageSizes, self.custom_page_sizes),
            (Feature::ReferenceTypes, self.reference_types),
            (Feature::ExtendedConst, self.extended_const),
            (Feature::ComponentModel, self.component_model),
            (Feature::StackSwitching, self.stack_switching),
        ]
    }

    /// The entries give each feature exactly the section's value for it.
    pub proof fn lemma_lookup_entries(self, f: Feature)
        ensures
            lookup(self.entries(), f) == self.feature(f),
    {
        reveal_with_fuel(lookup, 17);
    }
}

impl Default for WasmConfig {
    fn default() -> (c: Self)
        ensures
            c == WasmConfig::unset(),
    {
        WasmConfig {
            gc: None,
            function_references: None,
            threads: None,
            simd: None,
            relaxed_simd: None,
            bulk_memory: None,
            multi_value: None,
            multi_memory: None,
            memory64: None,
            tail_call: None,
            wide_arithmetic: None,
            custom_page_sizes: None,
            reference_types: None,
            extended_const: None,
            component_model: None,
            stack_switching: None,
        }
    }
}

impl CodegenConfig {
    /// The section with no field given.
    pub open spec fn unset() -> CodegenConfig {
        CodegenConfig { parallel_compilation: None, opt_level: None }
    }

    /// The settings the `[codegen]` section asks for, in order.
    pub open spec fn plan(self) -> Seq<Setting> {
        (match self.parallel_compilation {
            Some(v) => seq![Setting::ParallelCompilation(v)],
            None => Seq::empty(),
        }) + (match self.opt_level {
            Some(level) => seq![Setting::CraneliftOptLevel(opt_level_for(level))],
            None => Seq::empty(),
        })
    }
}

impl Default for CodegenConfig {
    fn default() -> (c: Self)
        ensures
            c == CodegenConfig::unset(),
    {
        CodegenConfig { parallel_compilation: None, opt_level: None }
    }
}

impl OptimizeConfig {
    /// The section with no field given.
    pub open spec fn unset() -> OptimizeConfig {
        OptimizeConfig { pooling_allocator: None }
    }
}

impl Default for OptimizeConfig {
    fn default() -> (c: Self)
        ensures
            c == OptimizeConfig::unset(),
    {
        OptimizeConfig { pooling_allocator: None }
    }
}

impl WasmtimeConfig {
    /// The configuration with no field given in any section.
    pub open spec fn unset() -> WasmtimeConfig {
        WasmtimeConfig {
            wasm: WasmConfig::unset(),
            codegen: CodegenConfig::unset(),
            optimize: OptimizeConfig::unset(),
        }
    }

    /// Whether the configuration explicitly disables the component model, which
    /// prevents running WASI components and is worth a warning when applied.
    pub fn disables_component_model(&self) -> (disabled: bool)
        ensures
            disabled == (self.wasm.component_model == Some(false)),
    {
        match self.wasm.component_model {
            Some(v) => !v,
            None => false,
        }
    }

    /// The settings that applying this configuration issues, in order:
    /// the `[wasm]` entries, then the `[codegen]` ones.
    pub open spec fn apply_plan(self) -> Seq<Setting> {
        flag_plan(self.wasm.entries()) + self.codegen.plan()
    }

    /// The setting this configuration explicitly asks for under `key`, if any.
    pub open spec fn specified(self, key: SettingKey) -> Option<Setting> {
        match key {
            SettingKey::Wasm(f) => flag_setting(f, self.wasm.feature(f)),
            SettingKey::ParallelCompilation => match self.codegen.parallel_compilation {
                Some(v) => Some(Setting::ParallelCompilation(v)),
                None => None,
            },
            SettingKey::CraneliftOptLevel => match self.codegen.opt_level {
                Some(level) => Some(Setting::CraneliftOptLevel(opt_level_for(level))),
                None => None,
            },
            SettingKey::AllocationStrategy => None,
            SettingKey::AsyncSupport => None,
        }
    }

    /// Applying the configuration sets exactly what it specifies.
    pub proof fn lemma_apply_plan_effective(self, key: SettingKey)
        ensures
            effective(self.apply_plan(), key) == self.specified(key),
    {
        let wasm_plan = flag_plan(self.wasm.entries());
        let codegen_plan = self.codegen.plan();
        lemma_effective_concat(wasm_plan, codegen_plan, key);
        lemma_flag_plan_effective(self.wasm.entries(), key);
        if let SettingKey::Wasm(f) = key {
            self.wasm.lemma_lookup_entries(f);
        }
        let p = match self.codegen.parallel_compilation {
            Some(v) => seq![Setting::ParallelCompilation(v)],
            None => Seq::<Setting>::empty(),
        };
        let o = match self.codegen.opt_level {
            Some(level) => seq![Setting::CraneliftOptLevel(opt_level_for(level))],
            None => Seq::<Setting>::empty(),
        };
        lemma_effective_concat(p, o, key);
        reveal_with_fuel(effective, 2);
    }
}

impl Default for WasmtimeConfig {
    fn default() -> (c: Self)
        ensures
            c == WasmtimeConfig::unset(),
    {
        WasmtimeConfig {
            wasm: WasmConfig::default(),
            codegen: CodegenConfig::default(),
            optimize: OptimizeConfig::default(),
        }
    }
}

} // verus!
