//! Runtime detection: classifies the attached engine runtime into exactly one
//! of two variants by probing which distinctive exports its library carries.

use vstd::prelude::*;
use crate::errors::BootstrapError;
use crate::symbols::SymbolTable;

verus! {

/// The two mutually exclusive managed-runtime flavours a host engine ships.
/// Detection runs once per process and the result is immutable afterwards.
#[derive(Clone, Copy, Debug, PartialEq, Eq, Structural)]
pub enum RuntimeVariant {
    /// The embedded scripting runtime. Detected, but declared unsupported:
    /// operating on it is a fatal error, not a degraded path.
    Mono,
    /// The ahead-of-time variant the bootstrap supports.
    Il2Cpp,
}

/// The export whose presence marks the ahead-of-time variant.
pub open spec fn il2cpp_marker() -> Seq<char> {
    "il2cpp_init"@
}

/// The export whose presence marks the embedded scripting variant.
pub open spec fn mono_marker() -> Seq<char> {
    "mono_jit_init_version"@
}

/// The probe predicate of the ahead-of-time variant.
pub open spec fn probes_il2cpp(t: SymbolTable) -> bool {
    t.has_export(il2cpp_marker())
}

/// The probe predicate of the scripting variant. It yields only where the
/// other probe does not, so the two probe sets are disjoint by construction.
pub open spec fn probes_mono(t: SymbolTable) -> bool {
    !t.has_export(il2cpp_marker()) && t.has_export(mono_marker())
}

/// What classification returns for a given export table.
pub open spec fn spec_classify(t: SymbolTable) -> Result<RuntimeVariant, BootstrapError> {
    if probes_il2cpp(t) {
        Ok(RuntimeVariant::Il2Cpp)
    } else if probes_mono(t) {
        Ok(RuntimeVariant::Mono)
    } else {
        Err(BootstrapError::UnknownRuntime)
    }
}

/// Classifies the attached runtime by its exports. An ambiguous or unknown
/// host is never silently tolerated: where neither probe matches, the result
/// is the fatal error for an unknown runtime.
pub fn classify(table: &SymbolTable) -> (r: Result<RuntimeVariant, BootstrapError>)
    ensures
        r == spec_classify(*table),
{
    if table.get_export_ptr("il2cpp_init").is_some() {
        Ok(RuntimeVariant::Il2Cpp)
    } else if table.get_export_ptr("mono_jit_init_version").is_some() {
        Ok(RuntimeVariant::Mono)
    } else {
        Err(BootstrapError::UnknownRuntime)
    }
}

/// Classification returns exactly one variant, never both and never neither:
/// the probe predicates are disjoint, each successful answer is forced by the
/// probe that matched, and an error is returned exactly when no probe matches.
pub proof fn lemma_classify_exclusive_exhaustive(t: SymbolTable)
    ensures
        !(probes_il2cpp(t) && probes_mono(t)),
        spec_classify(t) == Ok::<RuntimeVariant, BootstrapError>(RuntimeVariant::Il2Cpp)
            <==> probes_il2cpp(t),
        spec_classify(t) == Ok::<RuntimeVariant, BootstrapError>(RuntimeVariant::Mono)
            <==> probes_mono(t),
        spec_classify(t) is Err <==> (!probes_il2cpp(t) && !probes_mono(t)),
{
}

} // verus!
