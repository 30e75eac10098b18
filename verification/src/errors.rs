//! Error taxonomy of the bootstrap.
//!
//! Every failure on the critical path is unrecoverable: the caller that drives
//! the initialization maps any of these to a fatal abort after logging. The
//! variants keep the categories apart so the message can name the missing
//! artifact, symbol or slot.

use vstd::prelude::*;

verus! {

/// An artifact the bootstrap expects from its environment before the
/// handshake may begin. Its absence is a user-diagnosable environment error,
/// not a code defect.
#[derive(Clone, Copy, Debug, PartialEq, Eq, Structural)]
pub enum EnvArtifact {
    /// The hosting library for the managed runtime could not be loaded.
    HostFxrLibrary,
    /// The runtime-configuration artifact is missing on disk.
    RuntimeConfig,
    /// The managed host module is missing or not loadable.
    HostModule,
    /// The cached data directory was never established.
    DataDirectory,
    /// The cached package name was never established.
    PackageName,
    /// Neither candidate managed directory exists.
    ManagedDirectory,
    /// The packaged patch-date artifact does not parse.
    PatchDate,
}

/// The fixed set of runtime-internal exports the bootstrap resolves by name.
/// None has a stable public contract; each absence means "this runtime build
/// is incompatible".
#[derive(Clone, Copy, Debug, PartialEq, Eq, Structural)]
pub enum KnownSymbol {
    /// Sets the runtime's trace verbosity.
    TraceSetLevelString,
    /// Sets the runtime's trace category mask.
    TraceSetMaskString,
    /// Installs the unhandled-managed-exception observer.
    InstallUnhandledExceptionHook,
    /// Installs the thread-safety predicate consumed by the runtime.
    SetThreadChecker,
    /// Prints a faulting managed object through the runtime's own printer.
    PrintUnhandledException,
    /// The initialization export of the supported runtime variant.
    RuntimeInit,
    /// The stage-one entry point of the managed host.
    StageOneEntry,
    /// The stage-two entry point of the managed host.
    StageTwoEntry,
}

/// One slot of the Import Table, named so a protocol error can say which
/// required slot stayed null.
#[derive(Clone, Copy, Debug, PartialEq, Eq, Structural)]
pub enum ImportSlot {
    LoadAssemblyGetPtr,
    Initialize,
    PreStart,
    Start,
}

/// Failure modes of the hook engine's patch bookkeeping.
#[derive(Clone, Copy, Debug, PartialEq, Eq, Structural)]
pub enum HookError {
    /// The target address is null.
    NullTarget,
    /// The replacement address is null.
    NullReplacement,
    /// The target already carries an installed hook.
    AlreadyInstalled,
    /// The underlying patch primitive rejected the target.
    PatchRejected,
    /// No installed hook exists for the target.
    NotInstalled,
}

/// Every fatal condition of the bootstrap, by category.
#[derive(Clone, Copy, Debug, PartialEq, Eq, Structural)]
pub enum BootstrapError {
    /// The runtime variant was detected but is declared unsupported.
    UnsupportedRuntime,
    /// Neither variant's probe set matched: unknown or ambiguous host.
    UnknownRuntime,
    /// A required environment artifact is missing.
    Environment(EnvArtifact),
    /// An expected runtime-internal export is absent.
    SymbolMissing(KnownSymbol),
    /// The hosting library loaded but refused to initialize a runtime context.
    RuntimeInitFailed,
    /// A required Import Table slot stayed null after its population stage.
    NullImportSlot(ImportSlot),
    /// The hook engine refused the requested patch.
    Hook(HookError),
    /// A lifecycle call arrived before the handshake published its table.
    NotReady,
    /// Two registrations claimed the same managed-visible name.
    NameCollision,
}

} // verus!
