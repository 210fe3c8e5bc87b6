//! The host object of the WASM component execution mode: its limits, the
//! size gate before compilation and the import policy before instantiation.
use vstd::prelude::*;

use crate::text::{begins_with, has_prefix, text_eq};
use crate::wasm::error::WasmHostError;
use crate::wasm::limits::{default_limits, WasmResourceLimits};

verus! {

/// The import through which a component reads and writes its state.
pub open spec fn state_access_import() -> Seq<char> {
    "worldline:plugin/state-access@0.3.0"@
}

/// The import through which a component publishes events.
pub open spec fn event_publish_import() -> Seq<char> {
    "worldline:plugin/event-publish@0.3.0"@
}

/// Whether an import names a WASI interface.
pub open spec fn wasi_import(name: Seq<char>) -> bool {
    begins_with(name, "wasi:"@)
}

/// Whether the host provides an import: exactly the two host interfaces.
pub open spec fn provided_import(name: Seq<char>) -> bool {
    name == state_access_import() || name == event_publish_import()
}

/// The denial of a WASI import.
pub open spec fn wasi_denial_text(name: Seq<char>) -> Seq<char> {
    "component imports '"@ + name
        + "', but the host provides no WASI bindings; components run with zero ambient authority"@
}

/// The denial of an import the host does not provide.
pub open spec fn unprovided_denial_text(name: Seq<char>) -> Seq<char> {
    "component imports '"@ + name + "', which the external-plugin world does not provide"@
}

/// Whether `i` is the first WASI import of `names`.
pub open spec fn first_wasi_at(names: Seq<String>, i: int) -> bool {
    &&& 0 <= i < names.len()
    &&& wasi_import(names[i]@)
    &&& forall|j: int| 0 <= j < i ==> !wasi_import(#[trigger] names[j]@)
}

/// Whether `i` is the first import of `names` that the host does not provide.
pub open spec fn first_unprovided_at(names: Seq<String>, i: int) -> bool {
    &&& 0 <= i < names.len()
    &&& !provided_import(names[i]@)
    &&& forall|j: int| 0 <= j < i ==> provided_import(#[trigger] names[j]@)
}

/// The denial reason for a component with imports `names`: the first WASI
/// import if there is one, else the first import the host does not
/// provide, else none.
pub open spec fn import_denial(names: Seq<String>) -> Option<Seq<char>> {
    if exists|i: int| first_wasi_at(names, i) {
        Some(wasi_denial_text(names[choose|i: int| first_wasi_at(names, i)]@))
    } else if exists|i: int| first_unprovided_at(names, i) {
        Some(unprovided_denial_text(names[choose|i: int| first_unprovided_at(names, i)]@))
    } else {
        None
    }
}

/// The text of an optional string.
pub open spec fn text_of(r: Option<String>) -> Option<Seq<char>> {
    match r {
        Some(s) => Some(s@),
        None => None,
    }
}

/// The host object: it holds the resource limits and no per-component
/// state, so failures never affect it or other instances.
#[derive(Clone, Copy, Debug)]
pub struct WasmPluginHost {
    limits: WasmResourceLimits,
}

impl WasmPluginHost {
    /// The limits this host enforces.
    pub closed spec fn limits_of(&self) -> WasmResourceLimits {
        self.limits
    }

    /// A host with the default limits.
    pub fn new() -> (h: Self)
        ensures
            h.limits_of() == default_limits(),
    {
        WasmPluginHost::with_limits(WasmResourceLimits::default())
    }

    /// A host with explicit limits.
    pub fn with_limits(limits: WasmResourceLimits) -> (h: Self)
        ensures
            h.limits_of() == limits,
    {
        WasmPluginHost { limits }
    }

    /// The resource limits this host enforces.
    pub fn limits(&self) -> (l: &WasmResourceLimits)
        ensures
            *l == self.limits_of(),
    {
        &self.limits
    }

    /// The size gate of `load_component`, run before compilation, so an
    /// oversized binary never reaches the compiler.
    pub fn admit_component(&self, bytes: &[u8]) -> (r: Result<(), WasmHostError>)
        ensures
            r is Ok <==> bytes@.len() <= self.limits_of().max_component_bytes,
            r is Err ==> r == Err::<(), WasmHostError>(
                WasmHostError::ComponentTooLarge {
                    limit: self.limits_of().max_component_bytes,
                    actual: bytes@.len() as usize,
                },
            ),
    {
        self.limits.check_component_size(bytes.len())
    }

    /// Inspects a component's imports and returns the denial reason for the
    /// first import the host does not provide, naming `wasi:*` imports
    /// first.
    pub fn forbidden_import_reason(&self, imports: &Vec<String>) -> (r: Option<String>)
        ensures
            text_of(r) == import_denial(imports@),
    {
        let mut i: usize = 0;
        while i < imports.len()
            invariant
                i <= imports.len(),
                forall|j: int| 0 <= j < i ==> !wasi_import(#[trigger] imports@[j]@),
            decreases imports.len() - i,
        {
            if has_prefix(imports[i].as_str(), "wasi:") {
                let mut m = String::from_str("component imports '");
                m.append(imports[i].as_str());
                m.append(
                    "', but the host provides no WASI bindings; components run with zero ambient authority",
                );
                proof {
                    assert(first_wasi_at(imports@, i as int));
                    let k = choose|k: int| first_wasi_at(imports@, k);
                    if k < i {
                        assert(!wasi_import(imports@[k]@));
                    }
                    if k > i {
                        assert(!wasi_import(imports@[i as int]@));
                    }
                }
                return Some(m);
            }
            i += 1;
        }
        assert(!exists|k: int| first_wasi_at(imports@, k));
        let mut i: usize = 0;
        while i < imports.len()
            invariant
                i <= imports.len(),
                !exists|k: int| first_wasi_at(imports@, k),
                forall|j: int| 0 <= j < i ==> provided_import(#[trigger] imports@[j]@),
            decreases imports.len() - i,
        {
            let name = imports[i].as_str();
            if !text_eq(name, "worldline:plugin/state-access@0.3.0") && !text_eq(
                name,
                "worldline:plugin/event-publish@0.3.0",
            ) {
                let mut m = String::from_str("component imports '");
                m.append(name);
                m.append("', which the external-plugin world does not provide");
                proof {
                    assert(first_unprovided_at(imports@, i as int));
                    let k = choose|k: int| first_unprovided_at(imports@, k);
                    if k < i {
                        assert(provided_import(imports@[k]@));
                    }
                    if k > i {
                        assert(provided_import(imports@[i as int]@));
                    }
                }
                return Some(m);
            }
            i += 1;
        }
        assert(!exists|k: int| first_unprovided_at(imports@, k));
        None
    }
}

proof fn lemma_first_unprovided(names: Seq<String>, i: int)
    requires
        0 <= i < names.len(),
        !provided_import(names[i]@),
    ensures
        exists|k: int| first_unprovided_at(names, k),
    decreases i,
{
    if forall|j: int| 0 <= j < i ==> provided_import(#[trigger] names[j]@) {
        assert(first_unprovided_at(names, i));
    } else {
        let j = choose|j: int| 0 <= j < i && !provided_import(#[trigger] names[j]@);
        lemma_first_unprovided(names, j);
    }
}

/// A component is refused exactly when one of its imports is not one of the
/// two host interfaces (a WASI import never is one).
pub proof fn law_refused_iff_unprovided_import(names: Seq<String>)
    ensures
        import_denial(names) is None <==> forall|i: int|
            0 <= i < names.len() ==> provided_import(#[trigger] names[i]@),
{
    reveal_strlit("wasi:");
    reveal_strlit("worldline:plugin/state-access@0.3.0");
    reveal_strlit("worldline:plugin/event-publish@0.3.0");
    if forall|i: int| 0 <= i < names.len() ==> provided_import(#[trigger] names[i]@) {
        assert forall|i: int| 0 <= i < names.len() implies !wasi_import(#[trigger] names[i]@) by {
            assert(provided_import(names[i]@));
            if wasi_import(names[i]@) {
                assert(names[i]@.subrange(0, 5)[1] == 'a');
            }
        }
        assert(!exists|k: int| first_wasi_at(names, k));
        assert(!exists|k: int| first_unprovided_at(names, k));
    } else {
        let i = choose|i: int| 0 <= i < names.len() && !provided_import(#[trigger] names[i]@);
        lemma_first_unprovided(names, i);
    }
}

} // verus!
