//! The settings of an execution environment.

use vstd::prelude::*;

verus! {

/// The settings of an execution environment: which proposals are switched
/// on, whether the system interface is registered, what is measured, and
/// how many pages a memory may grow to.
#[derive(Debug, Clone, Copy, PartialEq, Eq, Structural)]
pub struct Config {
    pub annotations: bool,
    pub bulk_memory_operations: bool,
    pub exception_handling: bool,
    pub function_references: bool,
    pub memory64: bool,
    pub multi_memories: bool,
    pub multi_value: bool,
    pub mutable_globals: bool,
    pub non_trap_conversions: bool,
    pub reference_types: bool,
    pub sign_extension_operators: bool,
    pub simd: bool,
    pub tail_call: bool,
    pub threads: bool,
    pub wasi: bool,
    pub cost_measuring: bool,
    pub instruction_counting: bool,
    pub time_measuring: bool,
    pub max_memory_pages: u32,
}

impl Config {
    /// The settings of a new environment: what the engine starts from, with
    /// bulk memory operations and multiple memories switched on.
    pub open spec fn spec_create(engine_defaults: Config) -> Config {
        Config { bulk_memory_operations: true, multi_memories: true, ..engine_defaults }
    }

    /// The settings of a new environment: what the engine starts from, with
    /// bulk memory operations and multiple memories switched on.
    pub fn create(engine_defaults: Config) -> (r: Option<Self>)
        ensures
            r == Some(Self::spec_create(engine_defaults)),
    {
        let mut config = engine_defaults;
        config.bulk_memory_operations = true;
        config.multi_memories = true;
        Some(config)
    }

    /// New settings that take every setting from `src` but one: multiple
    /// memories are switched on whatever `src` says, as in every new
    /// environment.
    pub fn copy_from(src: &Config) -> (r: Option<Self>)
        ensures
            r == Some((Config { multi_memories: true, ..*src })),
    {
        let fresh = match Config::create(*src) {
            Some(c) => c,
            None => {
                return None;
            },
        };
        Some(
            Config {
                annotations: src.annotations,
                bulk_memory_operations: src.bulk_memory_operations,
                exception_handling: src.exception_handling,
                function_references: src.function_references,
                memory64: src.memory64,
                multi_value: src.multi_value,
                mutable_globals: src.mutable_globals,
                non_trap_conversions: src.non_trap_conversions,
                reference_types: src.reference_types,
                sign_extension_operators: src.sign_extension_operators,
                simd: src.simd,
                tail_call: src.tail_call,
                threads: src.threads,
                wasi: src.wasi,
                cost_measuring: src.cost_measuring,
                instruction_counting: src.instruction_counting,
                time_measuring: src.time_measuring,
                max_memory_pages: src.max_memory_pages,
                ..fresh
            },
        )
    }
}

} // verus!
