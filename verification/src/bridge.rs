//! The Host Bridge: the two-stage handshake with the dynamically loaded
//! managed host.
//!
//! The bridge exchanges two fixed-shape tables of raw callable addresses. The
//! Import Table is what the managed host supplies to native code: a generic
//! resolver and three lifecycle callbacks. The Export Table is what native
//! code hands to the managed host, exactly once. Slots are agreed by position,
//! not by any type-checked contract, so the bridge's whole value is that it
//! refuses to proceed while any required slot is null and never publishes a
//! partially populated table.
//!
//! Transitions only move forward; there is no rollback. A failure at any stage
//! is fatal to the whole bootstrap and is reported as a distinguishable error.

use vstd::prelude::*;
use crate::errors::{BootstrapError, EnvArtifact, ImportSlot, KnownSymbol};

verus! {

/// The Import Table: addresses the managed host fills in. All slots start
/// null; stage one populates at least the resolver, stage two the rest.
#[derive(Clone, Copy, Debug, PartialEq, Eq, Structural)]
pub struct HostImports {
    /// Resolves any exported managed function pointer by assembly, type and
    /// method name. The only slot stage two's lookup depends on.
    pub load_assembly_get_ptr: usize,
    pub initialize: usize,
    pub pre_start: usize,
    pub start: usize,
}

/// The Export Table: native callback addresses handed to the managed host.
/// Each stays independently invocable from managed code after the handshake.
#[derive(Clone, Copy, Debug, PartialEq, Eq, Structural)]
pub struct HostExports {
    pub hook_attach: usize,
    pub hook_detach: usize,
    pub log_console: usize,
    pub get_java_vm: usize,
    pub get_package_name: usize,
}

/// The handshake's forward-only states.
#[derive(Clone, Copy, Debug, PartialEq, Eq, Structural)]
pub enum BridgeState {
    Unloaded,
    Stage1Requested,
    Stage1Complete,
    Stage2Requested,
    Ready,
}

/// What the caller found in the environment before stage one, in the order
/// the bootstrap probes it.
#[derive(Clone, Copy, Debug, PartialEq, Eq, Structural)]
pub struct Stage1Env {
    /// The hosting library for the managed runtime loaded.
    pub hostfxr_loaded: bool,
    /// The runtime-configuration artifact exists on disk.
    pub runtime_config_exists: bool,
    /// The hosting library initialized a runtime context from that config.
    pub runtime_context_ok: bool,
    /// The managed host module exists and is loadable.
    pub host_module_loadable: bool,
    /// The resolved stage-one entry point inside the managed host, if found.
    pub stage1_entry: Option<usize>,
}

/// The fully null Import Table every bridge starts from.
pub open spec fn imports_empty() -> HostImports {
    HostImports { load_assembly_get_ptr: 0, initialize: 0, pre_start: 0, start: 0 }
}

/// The exact outcome of the stage-one environment check: the stage-one entry
/// address, or the first missing precondition as a fatal, diagnosable error.
pub open spec fn spec_begin_stage1(env: Stage1Env) -> Result<usize, BootstrapError> {
    if !env.hostfxr_loaded {
        Err(BootstrapError::Environment(EnvArtifact::HostFxrLibrary))
    } else if !env.runtime_config_exists {
        Err(BootstrapError::Environment(EnvArtifact::RuntimeConfig))
    } else if !env.runtime_context_ok {
        Err(BootstrapError::RuntimeInitFailed)
    } else if !env.host_module_loadable {
        Err(BootstrapError::Environment(EnvArtifact::HostModule))
    } else {
        match env.stage1_entry {
            None => Err(BootstrapError::SymbolMissing(KnownSymbol::StageOneEntry)),
            Some(a) => if a == 0 {
                Err(BootstrapError::SymbolMissing(KnownSymbol::StageOneEntry))
            } else {
                Ok(a)
            },
        }
    }
}

/// The exact outcome of accepting the table stage one populated.
pub open spec fn spec_complete_stage1(imports: HostImports) -> Result<(), BootstrapError> {
    if imports.load_assembly_get_ptr == 0 {
        Err(BootstrapError::NullImportSlot(ImportSlot::LoadAssemblyGetPtr))
    } else {
        Ok(())
    }
}

/// The exact outcome of accepting the table stage two populated: the
/// initialize entry to invoke, or the slot that stayed null.
pub open spec fn spec_complete_stage2(stage2_entry: usize, imports: HostImports) -> Result<
    usize,
    BootstrapError,
> {
    if stage2_entry == 0 {
        Err(BootstrapError::SymbolMissing(KnownSymbol::StageTwoEntry))
    } else if imports.initialize == 0 {
        Err(BootstrapError::NullImportSlot(ImportSlot::Initialize))
    } else if imports.load_assembly_get_ptr == 0 {
        Err(BootstrapError::NullImportSlot(ImportSlot::LoadAssemblyGetPtr))
    } else {
        Ok(imports.initialize)
    }
}

/// The bridge: handshake state, the two tables, and the process-wide slot the
/// finished Import Table is published into.
pub struct HostBridge {
    pub state: BridgeState,
    pub imports: HostImports,
    pub exports: HostExports,
    /// The Export Table has been handed to the managed host.
    pub exports_handed: bool,
    /// The stage-one entry point was successfully invoked.
    pub stage1_invoked: bool,
    /// The stage-two entry point was successfully invoked.
    pub stage2_invoked: bool,
    /// The process-wide Import Table slot. Written exactly once, under
    /// exclusive access, only with a fully populated table; every later
    /// lifecycle call reads it under shared access.
    pub published: Option<HostImports>,
}

impl HostBridge {
    /// How far along the forward-only state chain the bridge is.
    pub open spec fn state_idx(self) -> int {
        match self.state {
            BridgeState::Unloaded => 0,
            BridgeState::Stage1Requested => 1,
            BridgeState::Stage1Complete => 2,
            BridgeState::Stage2Requested => 3,
            BridgeState::Ready => 4,
        }
    }

    /// The bridge invariant. In particular: `Ready` is unreachable unless both
    /// stage entry points were invoked and the initialize slot is non-null,
    /// and nothing is ever published before `Ready`.
    pub open spec fn wf(self) -> bool {
        &&& self.stage1_invoked <==> self.state_idx() >= 2
        &&& self.stage2_invoked <==> self.state_idx() >= 4
        &&& self.exports_handed <==> self.state_idx() >= 3
        &&& self.state_idx() >= 2 ==> self.imports.load_assembly_get_ptr != 0
        &&& self.state_idx() >= 4 ==> self.imports.initialize != 0
        &&& match self.published {
            Some(t) => self.state == BridgeState::Ready && t == self.imports,
            None => true,
        }
    }

    /// A fresh bridge: unloaded, nothing invoked, nothing published, the
    /// Import Table fully null, the given native callbacks ready to hand over.
    pub fn new(exports: HostExports) -> (r: HostBridge)
        ensures
            r.wf(),
            r.state == BridgeState::Unloaded,
            r.imports == imports_empty(),
            r.exports == exports,
            !r.exports_handed,
            !r.stage1_invoked,
            !r.stage2_invoked,
            r.published is None,
    {
        HostBridge {
            state: BridgeState::Unloaded,
            imports: HostImports { load_assembly_get_ptr: 0, initialize: 0, pre_start: 0, start: 0 },
            exports,
            exports_handed: false,
            stage1_invoked: false,
            stage2_invoked: false,
            published: None,
        }
    }

    /// Checks every stage-one precondition, in probe order, and requests stage
    /// one. On success the caller invokes the returned entry with a pointer to
    /// the (still empty) Import Table. Any missing precondition is returned as
    /// the matching fatal error and the bridge does not advance.
    pub fn begin_stage1(&mut self, env: &Stage1Env) -> (r: Result<usize, BootstrapError>)
        requires
            old(self).wf(),
            old(self).state == BridgeState::Unloaded,
        ensures
            final(self).wf(),
            r == spec_begin_stage1(*env),
            r is Ok ==> final(self).state == BridgeState::Stage1Requested,
            r is Err ==> *final(self) == *old(self),
            final(self).imports == old(self).imports,
            final(self).exports == old(self).exports,
            final(self).published == old(self).published,
            final(self).state_idx() >= old(self).state_idx(),
    {
        if !env.hostfxr_loaded {
            return Err(BootstrapError::Environment(EnvArtifact::HostFxrLibrary));
        }
        if !env.runtime_config_exists {
            return Err(BootstrapError::Environment(EnvArtifact::RuntimeConfig));
        }
        if !env.runtime_context_ok {
            return Err(BootstrapError::RuntimeInitFailed);
        }
        if !env.host_module_loadable {
            return Err(BootstrapError::Environment(EnvArtifact::HostModule));
        }
        match env.stage1_entry {
            None => Err(BootstrapError::SymbolMissing(KnownSymbol::StageOneEntry)),
            Some(a) => {
                if a == 0 {
                    Err(BootstrapError::SymbolMissing(KnownSymbol::StageOneEntry))
                } else {
                    self.state = BridgeState::Stage1Requested;
                    Ok(a)
                }
            },
        }
    }

    /// Accepts the Import Table as the invoked stage-one entry left it. Stage
    /// two depends on the generic resolver, so a null resolver slot is the
    /// fatal protocol error for that slot.
    pub fn complete_stage1(&mut self, imports: HostImports) -> (r: Result<(), BootstrapError>)
        requires
            old(self).wf(),
            old(self).state == BridgeState::Stage1Requested,
        ensures
            final(self).wf(),
            r == spec_complete_stage1(imports),
            r is Ok ==> final(self).state == BridgeState::Stage1Complete
                && final(self).imports == imports && final(self).stage1_invoked,
            r is Err ==> *final(self) == *old(self),
            final(self).exports == old(self).exports,
            final(self).published == old(self).published,
            final(self).state_idx() >= old(self).state_idx(),
    {
        if imports.load_assembly_get_ptr == 0 {
            return Err(BootstrapError::NullImportSlot(ImportSlot::LoadAssemblyGetPtr));
        }
        self.imports = imports;
        self.stage1_invoked = true;
        self.state = BridgeState::Stage1Complete;
        Ok(())
    }

    /// Hands the Export Table over (exactly once) and requests stage two: the
    /// caller looks the stage-two entry up through the returned resolver, the
    /// capability only stage one provides.
    pub fn begin_stage2(&mut self) -> (r: (usize, HostExports))
        requires
            old(self).wf(),
            old(self).state == BridgeState::Stage1Complete,
        ensures
            final(self).wf(),
            r.0 == old(self).imports.load_assembly_get_ptr,
            r.0 != 0,
            r.1 == old(self).exports,
            final(self).state == BridgeState::Stage2Requested,
            final(self).exports_handed,
            final(self).imports == old(self).imports,
            final(self).exports == old(self).exports,
            final(self).published == old(self).published,
            final(self).state_idx() >= old(self).state_idx(),
    {
        self.state = BridgeState::Stage2Requested;
        self.exports_handed = true;
        (self.imports.load_assembly_get_ptr, self.exports)
    }

    /// Accepts the Import Table as the invoked stage-two entry left it and
    /// performs the completion check: the initialize slot must be non-null.
    /// On success the bridge is `Ready` and the caller must invoke the
    /// returned initialize entry, then publish.
    pub fn complete_stage2(&mut self, stage2_entry: usize, imports: HostImports) -> (r: Result<
        usize,
        BootstrapError,
    >)
        requires
            old(self).wf(),
            old(self).state == BridgeState::Stage2Requested,
        ensures
            final(self).wf(),
            r == spec_complete_stage2(stage2_entry, imports),
            r is Ok ==> final(self).state == BridgeState::Ready && final(self).imports == imports
                && final(self).stage1_invoked && final(self).stage2_invoked
                && final(self).imports.initialize != 0,
            r is Err ==> *final(self) == *old(self),
            final(self).exports == old(self).exports,
            final(self).published == old(self).published,
            final(self).state_idx() >= old(self).state_idx(),
    {
        if stage2_entry == 0 {
            return Err(BootstrapError::SymbolMissing(KnownSymbol::StageTwoEntry));
        }
        if imports.initialize == 0 {
            return Err(BootstrapError::NullImportSlot(ImportSlot::Initialize));
        }
        if imports.load_assembly_get_ptr == 0 {
            return Err(BootstrapError::NullImportSlot(ImportSlot::LoadAssemblyGetPtr));
        }
        self.imports = imports;
        self.stage2_invoked = true;
        self.state = BridgeState::Ready;
        Ok(imports.initialize)
    }

    /// Publishes the completed Import Table into the process-wide slot, after
    /// the caller has invoked the initialize entry. The single exclusive
    /// write: a reader can never observe a partially written table, because
    /// the only table ever published is the complete one of a `Ready` bridge.
    pub fn publish(&mut self)
        requires
            old(self).wf(),
            old(self).state == BridgeState::Ready,
            old(self).published is None,
        ensures
            final(self).wf(),
            final(self).published == Some(old(self).imports),
            final(self).imports == old(self).imports,
            final(self).exports == old(self).exports,
            final(self).state == old(self).state,
            final(self).state_idx() >= old(self).state_idx(),
    {
        self.published = Some(self.imports);
    }

    /// The exact outcome of a pre-start lifecycle call.
    pub open spec fn spec_pre_start(self) -> Result<usize, BootstrapError> {
        match self.published {
            None => Err(BootstrapError::NotReady),
            Some(t) => if t.pre_start == 0 {
                Err(BootstrapError::NullImportSlot(ImportSlot::PreStart))
            } else {
                Ok(t.pre_start)
            },
        }
    }

    /// The exact outcome of a start lifecycle call.
    pub open spec fn spec_start(self) -> Result<usize, BootstrapError> {
        match self.published {
            None => Err(BootstrapError::NotReady),
            Some(t) => if t.start == 0 {
                Err(BootstrapError::NullImportSlot(ImportSlot::Start))
            } else {
                Ok(t.start)
            },
        }
    }

    /// Reads the published table's pre-start entry for the caller to invoke.
    /// Rejected with `NotReady` whenever nothing has been published, so the
    /// call is impossible before the handshake completed. Callers must invoke
    /// pre-start before start; the bridge hands the entries out in any order.
    pub fn pre_start(&self) -> (r: Result<usize, BootstrapError>)
        requires
            self.wf(),
        ensures
            r == self.spec_pre_start(),
            r is Ok ==> self.state == BridgeState::Ready,
    {
        match self.published {
            None => Err(BootstrapError::NotReady),
            Some(t) => {
                if t.pre_start == 0 {
                    Err(BootstrapError::NullImportSlot(ImportSlot::PreStart))
                } else {
                    Ok(t.pre_start)
                }
            },
        }
    }

    /// Reads the published table's start entry for the caller to invoke.
    /// Rejected with `NotReady` whenever nothing has been published.
    pub fn start(&self) -> (r: Result<usize, BootstrapError>)
        requires
            self.wf(),
        ensures
            r == self.spec_start(),
            r is Ok ==> self.state == BridgeState::Ready,
    {
        match self.published {
            None => Err(BootstrapError::NotReady),
            Some(t) => {
                if t.start == 0 {
                    Err(BootstrapError::NullImportSlot(ImportSlot::Start))
                } else {
                    Ok(t.start)
                }
            },
        }
    }
}

/// The bridge never reaches `Ready` behind the handshake's back: a
/// well-formed bridge in the `Ready` state had both stage entry points
/// successfully invoked and carries a non-null initialize slot; and whatever
/// it published is that complete table.
pub proof fn lemma_ready_implies_handshake_complete(b: HostBridge)
    requires
        b.wf(),
        b.state == BridgeState::Ready,
    ensures
        b.stage1_invoked,
        b.stage2_invoked,
        b.imports.initialize != 0,
        b.published matches Some(t) ==> t == b.imports && t.initialize != 0,
{
}

/// No lifecycle entry is obtainable before `Ready`: every published table
/// comes from a `Ready` bridge, so a pre-start or start call on a bridge in
/// any earlier state is rejected with `NotReady`.
pub proof fn lemma_lifecycle_rejected_before_ready(b: HostBridge)
    requires
        b.wf(),
        b.state != BridgeState::Ready,
    ensures
        b.spec_pre_start() == Err::<usize, BootstrapError>(BootstrapError::NotReady),
        b.spec_start() == Err::<usize, BootstrapError>(BootstrapError::NotReady),
{
}

} // verus!
