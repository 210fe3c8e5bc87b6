//! Resource limits of the WASM component boundary and the host-call payload
//! gate.
use vstd::prelude::*;

use crate::wasm::error::WasmHostError;

verus! {

/// Default cap for one component binary: 8 MiB.
pub const DEFAULT_MAX_COMPONENT_BYTES: usize = 8 * 1024 * 1024;

/// Default cap for guest linear memory: 64 MiB.
pub const DEFAULT_MAX_MEMORY_BYTES: usize = 64 * 1024 * 1024;

/// Default cap for component/resource table entries: 10 000.
pub const DEFAULT_MAX_TABLE_ENTRIES: usize = 10_000;

/// Default execution budget per call, in fuel units.
pub const DEFAULT_FUEL_BUDGET_PER_CALL: u64 = 1_000_000_000;

/// Default cap for one host-call payload: 1 MiB.
pub const DEFAULT_MAX_HOST_CALL_PAYLOAD_BYTES: usize = 1024 * 1024;

/// Resource limit hints declared in a package manifest. Hints are inputs to
/// host policy, never authority.
#[derive(Clone, Copy, Debug, PartialEq, Eq)]
pub struct ResourceLimitHints {
    /// Requested cap for guest linear memory, in bytes.
    pub memory_bytes: Option<u64>,
    /// Requested cap for table entries.
    pub table_entries: Option<u32>,
    /// Requested cap for one host-call payload, in bytes.
    pub host_call_payload_bytes: Option<u64>,
}

impl Default for ResourceLimitHints {
    /// No hints at all.
    fn default() -> (h: Self)
        ensures
            h.memory_bytes is None,
            h.table_entries is None,
            h.host_call_payload_bytes is None,
    {
        ResourceLimitHints { memory_bytes: None, table_entries: None, host_call_payload_bytes: None }
    }
}

/// Resource limits applied to every component loaded and instantiated
/// through one host.
#[derive(Clone, Copy, Debug, PartialEq, Eq)]
pub struct WasmResourceLimits {
    /// Maximum component binary size in bytes, enforced before compilation.
    pub max_component_bytes: usize,
    /// Maximum guest linear memory in bytes.
    pub max_memory_bytes: usize,
    /// Maximum number of table entries.
    pub max_table_entries: usize,
    /// Execution budget charged per call and per instantiation.
    pub fuel_budget_per_call: u64,
    /// Maximum payload bytes of one host call.
    pub max_host_call_payload_bytes: usize,
}

/// The documented default limits.
pub open spec fn default_limits() -> WasmResourceLimits {
    WasmResourceLimits {
        max_component_bytes: DEFAULT_MAX_COMPONENT_BYTES,
        max_memory_bytes: DEFAULT_MAX_MEMORY_BYTES,
        max_table_entries: DEFAULT_MAX_TABLE_ENTRIES,
        fuel_budget_per_call: DEFAULT_FUEL_BUDGET_PER_CALL,
        max_host_call_payload_bytes: DEFAULT_MAX_HOST_CALL_PAYLOAD_BYTES,
    }
}

/// One optional hint clamped at `default`: an absent hint or one above the
/// default yields the default, a smaller hint is honored.
pub open spec fn clamped(hint: Option<u64>, default: u64) -> u64 {
    match hint {
        Some(value) => if value < default {
            value
        } else {
            default
        },
        None => default,
    }
}

/// The table-entry hint widened to 64 bits.
pub open spec fn widened(hint: Option<u32>) -> Option<u64> {
    match hint {
        Some(v) => Some(v as u64),
        None => None,
    }
}

/// The limits that manifest hints yield: the defaults, with memory, table
/// and payload caps clamped by the hints.
pub open spec fn limits_from_hints(hints: ResourceLimitHints) -> WasmResourceLimits {
    WasmResourceLimits {
        max_component_bytes: DEFAULT_MAX_COMPONENT_BYTES,
        max_memory_bytes: clamped(hints.memory_bytes, DEFAULT_MAX_MEMORY_BYTES as u64) as usize,
        max_table_entries: clamped(widened(hints.table_entries), DEFAULT_MAX_TABLE_ENTRIES as u64)
            as usize,
        fuel_budget_per_call: DEFAULT_FUEL_BUDGET_PER_CALL,
        max_host_call_payload_bytes: clamped(
            hints.host_call_payload_bytes,
            DEFAULT_MAX_HOST_CALL_PAYLOAD_BYTES as u64,
        ) as usize,
    }
}

/// Whether `a` is everywhere at most `b`.
pub open spec fn no_looser(a: WasmResourceLimits, b: WasmResourceLimits) -> bool {
    &&& a.max_component_bytes <= b.max_component_bytes
    &&& a.max_memory_bytes <= b.max_memory_bytes
    &&& a.max_table_entries <= b.max_table_entries
    &&& a.fuel_budget_per_call <= b.fuel_budget_per_call
    &&& a.max_host_call_payload_bytes <= b.max_host_call_payload_bytes
}

/// Clamps one optional hint at `default`.
pub fn clamp_hint(hint: Option<u64>, default: u64) -> (v: u64)
    ensures
        v == clamped(hint, default),
{
    match hint {
        Some(value) => if value < default {
            value
        } else {
            default
        },
        None => default,
    }
}

impl Default for WasmResourceLimits {
    /// The documented default limits.
    fn default() -> (l: Self)
        ensures
            l == default_limits(),
    {
        WasmResourceLimits {
            max_component_bytes: DEFAULT_MAX_COMPONENT_BYTES,
            max_memory_bytes: DEFAULT_MAX_MEMORY_BYTES,
            max_table_entries: DEFAULT_MAX_TABLE_ENTRIES,
            fuel_budget_per_call: DEFAULT_FUEL_BUDGET_PER_CALL,
            max_host_call_payload_bytes: DEFAULT_MAX_HOST_CALL_PAYLOAD_BYTES,
        }
    }
}

impl WasmResourceLimits {
    /// Builds limits from the resource limit hints of a package manifest: a
    /// hint below the default tightens the limit, a hint above it (or an
    /// absent hint) falls back to the default. Component size and fuel have
    /// no hint and always use the defaults.
    pub fn from_manifest_hints(hints: &ResourceLimitHints) -> (l: Self)
        ensures
            l == limits_from_hints(*hints),
            no_looser(l, default_limits()),
    {
        let table_hint = match hints.table_entries {
            Some(v) => Some(v as u64),
            None => None,
        };
        let memory = clamp_hint(hints.memory_bytes, DEFAULT_MAX_MEMORY_BYTES as u64);
        let table = clamp_hint(table_hint, DEFAULT_MAX_TABLE_ENTRIES as u64);
        let payload = clamp_hint(
            hints.host_call_payload_bytes,
            DEFAULT_MAX_HOST_CALL_PAYLOAD_BYTES as u64,
        );
        WasmResourceLimits {
            max_component_bytes: DEFAULT_MAX_COMPONENT_BYTES,
            max_memory_bytes: memory as usize,
            max_table_entries: table as usize,
            fuel_budget_per_call: DEFAULT_FUEL_BUDGET_PER_CALL,
            max_host_call_payload_bytes: payload as usize,
        }
    }

    /// The host-call payload gate: a payload of `len` bytes is admitted iff
    /// it does not exceed `max_host_call_payload_bytes`.
    pub fn check_host_call_payload(&self, len: usize) -> (r: Result<(), WasmHostError>)
        ensures
            r is Ok <==> len <= self.max_host_call_payload_bytes,
            r is Err ==> r == Err::<(), WasmHostError>(
                WasmHostError::ExternalPayloadTooLarge {
                    limit: self.max_host_call_payload_bytes,
                    actual: len,
                },
            ),
    {
        if len > self.max_host_call_payload_bytes {
            Err(
                WasmHostError::ExternalPayloadTooLarge {
                    limit: self.max_host_call_payload_bytes,
                    actual: len,
                },
            )
        } else {
            Ok(())
        }
    }

    /// The component size gate, run before compilation: a binary of `len`
    /// bytes is admitted iff it does not exceed `max_component_bytes`.
    pub fn check_component_size(&self, len: usize) -> (r: Result<(), WasmHostError>)
        ensures
            r is Ok <==> len <= self.max_component_bytes,
            r is Err ==> r == Err::<(), WasmHostError>(
                WasmHostError::ComponentTooLarge { limit: self.max_component_bytes, actual: len },
            ),
    {
        if len > self.max_component_bytes {
            Err(WasmHostError::ComponentTooLarge { limit: self.max_component_bytes, actual: len })
        } else {
            Ok(())
        }
    }
}

/// Manifest hints only ever tighten the host's baseline: every limit built
/// from hints is at most the default, a hint below the default is honored
/// exactly, and an absent hint or one at or above the default yields the
/// default.
pub proof fn law_manifest_hints_only_tighten(hints: ResourceLimitHints)
    ensures
        no_looser(limits_from_hints(hints), default_limits()),
        (hints.memory_bytes is Some && hints.memory_bytes->0 < DEFAULT_MAX_MEMORY_BYTES)
            ==> limits_from_hints(hints).max_memory_bytes == hints.memory_bytes->0,
        (hints.table_entries is Some && hints.table_entries->0 < DEFAULT_MAX_TABLE_ENTRIES)
            ==> limits_from_hints(hints).max_table_entries == hints.table_entries->0,
        (hints.host_call_payload_bytes is Some && hints.host_call_payload_bytes->0
            < DEFAULT_MAX_HOST_CALL_PAYLOAD_BYTES) ==> limits_from_hints(
            hints,
        ).max_host_call_payload_bytes == hints.host_call_payload_bytes->0,
        (hints.memory_bytes is None || hints.memory_bytes->0 >= DEFAULT_MAX_MEMORY_BYTES)
            ==> limits_from_hints(hints).max_memory_bytes == DEFAULT_MAX_MEMORY_BYTES,
        (hints.table_entries is None || hints.table_entries->0 >= DEFAULT_MAX_TABLE_ENTRIES)
            ==> limits_from_hints(hints).max_table_entries == DEFAULT_MAX_TABLE_ENTRIES,
        (hints.host_call_payload_bytes is None || hints.host_call_payload_bytes->0
            >= DEFAULT_MAX_HOST_CALL_PAYLOAD_BYTES) ==> limits_from_hints(
            hints,
        ).max_host_call_payload_bytes == DEFAULT_MAX_HOST_CALL_PAYLOAD_BYTES,
{
}

} // verus!
