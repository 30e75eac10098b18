//! The Symbol Patch Layer: resolves a fixed set of undocumented
//! runtime-internal exports and decides what to invoke through them, plus the
//! two callbacks the layer installs into the runtime: the unhandled-exception
//! observer and the thread-safety predicate.
//!
//! Any missing symbol here is escalated to a fatal error before the hook
//! engine runs: these operations are mandatory preconditions for safe hooking,
//! not optional diagnostics.

use vstd::prelude::*;
use crate::errors::{BootstrapError, KnownSymbol};
use crate::symbols::SymbolTable;

verus! {

/// The resolved addresses of the runtime-internal operations, in invocation
/// order: trace verbosity, trace category mask, exception observer installer,
/// thread-checker installer.
#[derive(Clone, Copy, Debug, PartialEq, Eq, Structural)]
pub struct PatchPlan {
    pub set_trace_level: usize,
    pub set_trace_mask: usize,
    pub install_exception_hook: usize,
    pub set_thread_checker: usize,
}

/// The export that sets the runtime's trace verbosity.
pub open spec fn trace_level_symbol() -> Seq<char> {
    "mono_trace_set_level_string"@
}

/// The export that sets the runtime's trace category mask.
pub open spec fn trace_mask_symbol() -> Seq<char> {
    "mono_trace_set_mask_string"@
}

/// The export that installs the unhandled-exception observer.
pub open spec fn exception_hook_symbol() -> Seq<char> {
    "mono_install_unhandled_exception_hook"@
}

/// The export that installs the thread-safety predicate.
pub open spec fn thread_checker_symbol() -> Seq<char> {
    "mono_melonloader_set_thread_checker"@
}

/// The export that prints a faulting managed object through the runtime's own
/// diagnostic printer.
pub open spec fn exception_printer_symbol() -> Seq<char> {
    "mono_print_unhandled_exception"@
}

/// The exact outcome of planning the symbol patches: all four addresses, or
/// the first missing export as a fatal incompatible-runtime error.
pub open spec fn spec_plan_runtime_patches(t: SymbolTable) -> Result<PatchPlan, BootstrapError> {
    match t.spec_get(trace_level_symbol()) {
        None => Err(BootstrapError::SymbolMissing(KnownSymbol::TraceSetLevelString)),
        Some(level) => match t.spec_get(trace_mask_symbol()) {
            None => Err(BootstrapError::SymbolMissing(KnownSymbol::TraceSetMaskString)),
            Some(mask) => match t.spec_get(exception_hook_symbol()) {
                None => Err(BootstrapError::SymbolMissing(
                    KnownSymbol::InstallUnhandledExceptionHook,
                )),
                Some(exc) => match t.spec_get(thread_checker_symbol()) {
                    None => Err(BootstrapError::SymbolMissing(KnownSymbol::SetThreadChecker)),
                    Some(checker) => Ok(
                        (PatchPlan {
                            set_trace_level: level,
                            set_trace_mask: mask,
                            install_exception_hook: exc,
                            set_thread_checker: checker,
                        }),
                    ),
                },
            },
        },
    }
}

/// Resolves the fixed set of runtime-internal exports the patch layer
/// invokes. Each address is later reinterpreted as a function pointer of an
/// assumed signature; that reinterpretation is unchecked by design, so the
/// only thing that can be validated here is presence, and any absence is the
/// fatal error naming the export.
pub fn plan_runtime_patches(table: &SymbolTable) -> (r: Result<PatchPlan, BootstrapError>)
    ensures
        r == spec_plan_runtime_patches(*table),
{
    let level = match table.get_export_ptr("mono_trace_set_level_string") {
        None => {
            return Err(BootstrapError::SymbolMissing(KnownSymbol::TraceSetLevelString));
        },
        Some(a) => a,
    };
    let mask = match table.get_export_ptr("mono_trace_set_mask_string") {
        None => {
            return Err(BootstrapError::SymbolMissing(KnownSymbol::TraceSetMaskString));
        },
        Some(a) => a,
    };
    let exc = match table.get_export_ptr("mono_install_unhandled_exception_hook") {
        None => {
            return Err(BootstrapError::SymbolMissing(KnownSymbol::InstallUnhandledExceptionHook));
        },
        Some(a) => a,
    };
    let checker = match table.get_export_ptr("mono_melonloader_set_thread_checker") {
        None => {
            return Err(BootstrapError::SymbolMissing(KnownSymbol::SetThreadChecker));
        },
        Some(a) => a,
    };
    Ok(
        (PatchPlan {
            set_trace_level: level,
            set_trace_mask: mask,
            install_exception_hook: exc,
            set_thread_checker: checker,
        }),
    )
}

/// The verbosity argument handed to the trace-level export.
pub fn trace_level_arg() -> (r: String)
    ensures
        r@ == "warning"@,
{
    "warning".to_owned()
}

/// The category-mask argument handed to the trace-mask export: every runtime
/// category, so downstream diagnostics capture all runtime-level activity.
pub fn trace_mask_arg() -> (r: String)
    ensures
        r@ == "all"@,
{
    "all".to_owned()
}

/// The exact decision of the unhandled-exception observer.
pub open spec fn spec_exception_observer(t: SymbolTable, exc: usize) -> Result<
    Option<usize>,
    BootstrapError,
> {
    if exc == 0 {
        Ok(None)
    } else {
        match t.spec_get(exception_printer_symbol()) {
            None => Err(BootstrapError::SymbolMissing(KnownSymbol::PrintUnhandledException)),
            Some(p) => Ok(Some(p)),
        }
    }
}

/// The unhandled-exception observer's decision: a null faulting object is
/// tolerated and treated as a no-op; any other faulting object is forwarded
/// to the runtime's own diagnostic printer, whose resolved address is
/// returned for the caller to invoke on the object.
pub fn exception_observer_action(table: &SymbolTable, exc: usize) -> (r: Result<
    Option<usize>,
    BootstrapError,
>)
    ensures
        r == spec_exception_observer(*table, exc),
{
    if exc == 0 {
        return Ok(None);
    }
    match table.get_export_ptr("mono_print_unhandled_exception") {
        None => Err(BootstrapError::SymbolMissing(KnownSymbol::PrintUnhandledException)),
        Some(p) => Ok(Some(p)),
    }
}

/// The thread-safety predicate the patch layer installs into the runtime:
/// whether it is safe for the runtime to suspend or patch around the thread
/// `tid`, given the threads the host engine currently considers attached.
/// `false` for exactly the attached threads: they are owned by engine-managed
/// code and patching around them risks corrupting their state. Side-effect
/// free, so it can be invoked concurrently from arbitrary runtime threads.
pub fn mono_check_thread(tid: u64, attached: &Vec<u64>) -> (r: bool)
    ensures
        r == !attached@.contains(tid),
{
    let n = attached.len();
    let mut i: usize = 0;
    while i < n
        invariant
            n == attached@.len(),
            i <= n,
            forall|j: int| 0 <= j < i ==> attached@[j] != tid,
        decreases n - i,
    {
        if attached[i] == tid {
            assert(attached@.contains(tid));
            return false;
        }
        i += 1;
    }
    assert(!attached@.contains(tid));
    true
}

} // verus!
