//! The options an engine is built with.

use vstd::prelude::*;

verus! {

/// What the host asks of the engine. Fixed once the engine is built.
#[derive(Clone, Copy, Debug, PartialEq, Eq, Structural)]
pub struct EngineConfig {
    /// Identical inputs and fuel give identical outputs or the identical trap.
    pub determinism: bool,
    /// Guest instructions are charged against the session's fuel.
    pub fuel_metering: bool,
    /// Calls across the boundary may suspend, in both directions.
    pub async_support: bool,
}

/// The engine switches that an `EngineConfig` stands for.
#[derive(Clone, Copy, Debug, PartialEq, Eq, Structural)]
pub struct EngineFlags {
    pub async_support: bool,
    pub component_model_async: bool,
    pub consume_fuel: bool,
    pub threads: bool,
    pub relaxed_simd: bool,
    pub nan_canonicalization: bool,
}

impl EngineConfig {
    /// The configuration every run of this host uses: deterministic, metered
    /// and able to suspend.
    pub open spec fn sandboxed_spec() -> EngineConfig {
        EngineConfig { determinism: true, fuel_metering: true, async_support: true }
    }

    #[verifier::when_used_as_spec(sandboxed_spec)]
    pub fn sandboxed() -> (c: EngineConfig)
        ensures
            c == Self::sandboxed_spec(),
    {
        EngineConfig { determinism: true, fuel_metering: true, async_support: true }
    }

    /// Determinism switches off what may differ between hosts (shared-memory
    /// threads, relaxed vector instructions) and canonicalizes NaN results.
    pub open spec fn flags_spec(self) -> EngineFlags {
        EngineFlags {
            async_support: self.async_support,
            component_model_async: self.async_support,
            consume_fuel: self.fuel_metering,
            threads: !self.determinism,
            relaxed_simd: !self.determinism,
            nan_canonicalization: self.determinism,
        }
    }

    #[verifier::when_used_as_spec(flags_spec)]
    pub fn flags(self) -> (f: EngineFlags)
        ensures
            f == self.flags_spec(),
    {
        EngineFlags {
            async_support: self.async_support,
            component_model_async: self.async_support,
            consume_fuel: self.fuel_metering,
            threads: !self.determinism,
            relaxed_simd: !self.determinism,
            nan_canonicalization: self.determinism,
        }
    }
}

} // verus!
