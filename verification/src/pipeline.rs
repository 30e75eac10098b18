//! The bootstrap pipeline: the ordered, fail-fast initialization sequence of
//! the whole subsystem, run synchronously on the attach thread.
//!
//! Classification precedes the handshake, the symbol patches precede the hook
//! installation, the hook exists only once the Import Table is published, and
//! the lifecycle calls are reachable only in order. Any error leaves the
//! pipeline where it was; the driver maps every error to the single
//! fatal-abort path.

use vstd::prelude::*;
use crate::bridge::{
    spec_begin_stage1, spec_complete_stage1, spec_complete_stage2, BridgeState, HostBridge,
    HostExports, HostImports, Stage1Env,
};
use crate::detector::{classify, spec_classify, RuntimeVariant};
use crate::errors::{BootstrapError, KnownSymbol};
use crate::hook::{spec_hook_result, spec_hooks_after, HookEngine, HookRecord};
use crate::patches::{plan_runtime_patches, spec_plan_runtime_patches, PatchPlan};
use crate::symbols::SymbolTable;

verus! {

/// How far the attach-time sequence has come.
#[derive(Clone, Copy, Debug, PartialEq, Eq, Structural)]
pub enum Phase {
    /// The process attached; nothing decided yet.
    Attached,
    /// The runtime variant is known.
    Classified,
    /// The symbol patches are planned and applied.
    Patched,
    /// The init-export detour is installed.
    Hooked,
    /// The pre-start entry was handed out.
    PreStarted,
    /// The start entry was handed out.
    Started,
}

/// The export the init detour is installed on.
pub open spec fn init_export_symbol() -> Seq<char> {
    "il2cpp_init"@
}

/// The whole bootstrap's state: phase, detected variant, handshake bridge and
/// hook engine.
pub struct Bootstrap {
    pub phase: Phase,
    pub variant: Option<RuntimeVariant>,
    pub bridge: HostBridge,
    pub engine: HookEngine,
}

impl Bootstrap {
    /// How far along the phase chain the pipeline is.
    pub open spec fn phase_idx(self) -> int {
        match self.phase {
            Phase::Attached => 0,
            Phase::Classified => 1,
            Phase::Patched => 2,
            Phase::Hooked => 3,
            Phase::PreStarted => 4,
            Phase::Started => 5,
        }
    }

    /// The pipeline invariant. The ordering guarantees live here: no hook
    /// exists before the `Hooked` phase (so every abort on the way leaves the
    /// process unpatched), the handshake only ever runs for the supported
    /// variant, and the hook phase is reachable only with a published table.
    pub open spec fn wf(self) -> bool {
        &&& self.bridge.wf()
        &&& self.engine.wf()
        &&& self.phase_idx() == 0 ==> self.variant is None && self.bridge.state
            == BridgeState::Unloaded
        &&& self.phase_idx() >= 1 ==> self.variant is Some
        &&& self.phase_idx() == 1 ==> self.bridge.state_idx() <= 1
        &&& self.bridge.state_idx() >= 1 ==> self.phase_idx() >= 1 && self.variant == Some(
            RuntimeVariant::Il2Cpp,
        )
        &&& self.phase_idx() >= 2 ==> self.bridge.state_idx() >= 1
        &&& self.phase_idx() >= 3 ==> self.bridge.published is Some
        &&& self.phase_idx() < 3 ==> self.engine.hooks@.len() == 0
    }

    /// A fresh pipeline holding the native callbacks that will be handed to
    /// the managed host.
    pub fn new(exports: HostExports) -> (r: Bootstrap)
        ensures
            r.wf(),
            r.phase == Phase::Attached,
            r.variant is None,
            r.bridge.state == BridgeState::Unloaded,
            r.bridge.exports == exports,
            r.engine.hooks@.len() == 0,
    {
        Bootstrap {
            phase: Phase::Attached,
            variant: None,
            bridge: HostBridge::new(exports),
            engine: HookEngine::new(),
        }
    }

    /// Classifies the attached runtime, once. The variant is immutable for
    /// the rest of the process; an unknown host is the fatal classification
    /// error and the pipeline does not advance.
    pub fn classify_runtime(&mut self, table: &SymbolTable) -> (r: Result<
        RuntimeVariant,
        BootstrapError,
    >)
        requires
            old(self).wf(),
            old(self).phase == Phase::Attached,
        ensures
            final(self).wf(),
            r == spec_classify(*table),
            r matches Ok(v) ==> final(self).phase == Phase::Classified && final(self).variant
                == Some(v),
            r is Err ==> *final(self) == *old(self),
            final(self).bridge == old(self).bridge,
            final(self).engine == old(self).engine,
    {
        match classify(table) {
            Ok(v) => {
                self.variant = Some(v);
                self.phase = Phase::Classified;
                Ok(v)
            },
            Err(e) => Err(e),
        }
    }

    /// What initialization decides for the detected variant and environment.
    pub open spec fn spec_init(self, env: Stage1Env) -> Result<usize, BootstrapError> {
        if self.variant == Some(RuntimeVariant::Mono) {
            Err(BootstrapError::UnsupportedRuntime)
        } else {
            spec_begin_stage1(env)
        }
    }

    /// Starts initialization for the detected variant: the unsupported
    /// variant is a fatal error, not a degraded path; for the supported one,
    /// every stage-one precondition is checked in probe order and the
    /// handshake is requested. On success the caller invokes the returned
    /// stage-one entry with a pointer to the empty Import Table.
    pub fn init(&mut self, env: &Stage1Env) -> (r: Result<usize, BootstrapError>)
        requires
            old(self).wf(),
            old(self).phase == Phase::Classified,
            old(self).bridge.state == BridgeState::Unloaded,
        ensures
            final(self).wf(),
            r == old(self).spec_init(*env),
            r is Ok ==> final(self).bridge.state == BridgeState::Stage1Requested
                && final(self).phase == Phase::Classified,
            r is Err ==> *final(self) == *old(self),
            final(self).engine == old(self).engine,
            final(self).variant == old(self).variant,
            final(self).phase == old(self).phase,
    {
        match self.variant {
            Some(RuntimeVariant::Mono) => Err(BootstrapError::UnsupportedRuntime),
            _ => self.bridge.begin_stage1(env),
        }
    }

    /// Plans and applies the symbol patches, strictly after the stage-one
    /// environment checks and strictly before any hook is installed: a
    /// missing runtime-internal export aborts the bootstrap while the process
    /// is still unpatched.
    pub fn plan_patches(&mut self, table: &SymbolTable) -> (r: Result<PatchPlan, BootstrapError>)
        requires
            old(self).wf(),
            old(self).phase == Phase::Classified,
            old(self).bridge.state == BridgeState::Stage1Requested,
        ensures
            final(self).wf(),
            r == spec_plan_runtime_patches(*table),
            r is Ok ==> final(self).phase == Phase::Patched,
            r is Err ==> *final(self) == *old(self),
            final(self).bridge == old(self).bridge,
            final(self).engine == old(self).engine,
            final(self).engine.hooks@.len() == 0,
    {
        match plan_runtime_patches(table) {
            Ok(plan) => {
                self.phase = Phase::Patched;
                Ok(plan)
            },
            Err(e) => Err(e),
        }
    }

    /// Accepts the Import Table as stage one left it.
    pub fn complete_stage1(&mut self, imports: HostImports) -> (r: Result<(), BootstrapError>)
        requires
            old(self).wf(),
            old(self).phase == Phase::Patched,
            old(self).bridge.state == BridgeState::Stage1Requested,
        ensures
            final(self).wf(),
            r == spec_complete_stage1(imports),
            r is Ok ==> final(self).bridge.state == BridgeState::Stage1Complete
                && final(self).bridge.imports == imports,
            r is Err ==> *final(self) == *old(self),
            final(self).phase == old(self).phase,
            final(self).engine == old(self).engine,
    {
        self.bridge.complete_stage1(imports)
    }

    /// Hands the Export Table over and returns the stage-one-provided
    /// resolver through which the caller looks up the stage-two entry.
    pub fn begin_stage2(&mut self) -> (r: (usize, HostExports))
        requires
            old(self).wf(),
            old(self).phase == Phase::Patched,
            old(self).bridge.state == BridgeState::Stage1Complete,
        ensures
            final(self).wf(),
            r.0 == old(self).bridge.imports.load_assembly_get_ptr,
            r.0 != 0,
            r.1 == old(self).bridge.exports,
            final(self).bridge.state == BridgeState::Stage2Requested,
            final(self).phase == old(self).phase,
            final(self).engine == old(self).engine,
    {
        self.bridge.begin_stage2()
    }

    /// Accepts the Import Table as stage two left it and performs the
    /// completion check; the caller invokes the returned initialize entry and
    /// then publishes.
    pub fn complete_stage2(&mut self, stage2_entry: usize, imports: HostImports) -> (r: Result<
        usize,
        BootstrapError,
    >)
        requires
            old(self).wf(),
            old(self).phase == Phase::Patched,
            old(self).bridge.state == BridgeState::Stage2Requested,
        ensures
            final(self).wf(),
            r == spec_complete_stage2(stage2_entry, imports),
            r is Ok ==> final(self).bridge.state == BridgeState::Ready && final(self).bridge.imports
                == imports,
            r is Err ==> *final(self) == *old(self),
            final(self).phase == old(self).phase,
            final(self).engine == old(self).engine,
    {
        self.bridge.complete_stage2(stage2_entry, imports)
    }

    /// Publishes the completed Import Table into the process-wide slot.
    pub fn publish(&mut self)
        requires
            old(self).wf(),
            old(self).phase == Phase::Patched,
            old(self).bridge.state == BridgeState::Ready,
            old(self).bridge.published is None,
        ensures
            final(self).wf(),
            final(self).bridge.published == Some(old(self).bridge.imports),
            final(self).phase == old(self).phase,
            final(self).engine == old(self).engine,
    {
        self.bridge.publish()
    }

    /// What installing the init detour decides.
    pub open spec fn spec_install_init_hook(
        self,
        table: SymbolTable,
        detour: usize,
        trampoline: usize,
    ) -> Result<HookRecord, BootstrapError> {
        match table.spec_get(init_export_symbol()) {
            None => Err(BootstrapError::SymbolMissing(KnownSymbol::RuntimeInit)),
            Some(target) => match spec_hook_result(self.engine.hooks@, target, detour, trampoline) {
                Ok(rec) => Ok(rec),
                Err(e) => Err(BootstrapError::Hook(e)),
            },
        }
    }

    /// Installs the detour on the supported runtime's initialization export,
    /// gated on the published Import Table and the applied patches: only now,
    /// and synchronously on the still single-threaded attach path, is the
    /// process patched.
    pub fn install_init_hook(
        &mut self,
        table: &SymbolTable,
        detour: usize,
        trampoline: usize,
    ) -> (r: Result<HookRecord, BootstrapError>)
        requires
            old(self).wf(),
            old(self).phase == Phase::Patched,
            old(self).bridge.published is Some,
        ensures
            final(self).wf(),
            r == old(self).spec_install_init_hook(*table, detour, trampoline),
            r matches Ok(rec) ==> final(self).phase == Phase::Hooked
                && final(self).engine.hooks@ == spec_hooks_after(
                old(self).engine.hooks@,
                rec.target,
                detour,
                trampoline,
            ) && final(self).engine.spec_dispatch(rec.target) == detour
                && final(self).engine.spec_original_entry(rec.target) == trampoline,
            r is Err ==> final(self).phase == old(self).phase && final(self).engine.hooks@ == old(
                self,
            ).engine.hooks@,
            final(self).bridge == old(self).bridge,
            final(self).variant == old(self).variant,
    {
        let target = match table.get_export_ptr("il2cpp_init") {
            None => {
                return Err(BootstrapError::SymbolMissing(KnownSymbol::RuntimeInit));
            },
            Some(a) => a,
        };
        match self.engine.hook(target, detour, trampoline) {
            Ok(rec) => {
                self.phase = Phase::Hooked;
                Ok(rec)
            },
            Err(e) => Err(BootstrapError::Hook(e)),
        }
    }

    /// What a pre-start lifecycle call decides.
    pub open spec fn spec_pipeline_pre_start(self) -> Result<usize, BootstrapError> {
        if self.phase != Phase::Hooked {
            Err(BootstrapError::NotReady)
        } else {
            self.bridge.spec_pre_start()
        }
    }

    /// Hands out the published pre-start entry, exactly once, and only after
    /// the hook phase: any earlier (or repeated) call is rejected with the
    /// not-ready error, so out-of-order lifecycle calls are impossible.
    pub fn pre_start(&mut self) -> (r: Result<usize, BootstrapError>)
        requires
            old(self).wf(),
        ensures
            final(self).wf(),
            r == old(self).spec_pipeline_pre_start(),
            r is Ok ==> final(self).phase == Phase::PreStarted,
            r is Err ==> *final(self) == *old(self),
            final(self).bridge == old(self).bridge,
            final(self).engine == old(self).engine,
    {
        match self.phase {
            Phase::Hooked => {
                match self.bridge.pre_start() {
                    Ok(a) => {
                        self.phase = Phase::PreStarted;
                        Ok(a)
                    },
                    Err(e) => Err(e),
                }
            },
            _ => Err(BootstrapError::NotReady),
        }
    }

    /// What a start lifecycle call decides.
    pub open spec fn spec_pipeline_start(self) -> Result<usize, BootstrapError> {
        if self.phase != Phase::PreStarted {
            Err(BootstrapError::NotReady)
        } else {
            self.bridge.spec_start()
        }
    }

    /// Hands out the published start entry, exactly once, and only after
    /// pre-start: the order of the two lifecycle calls is enforced by the
    /// phase chain itself.
    pub fn start(&mut self) -> (r: Result<usize, BootstrapError>)
        requires
            old(self).wf(),
        ensures
            final(self).wf(),
            r == old(self).spec_pipeline_start(),
            r is Ok ==> final(self).phase == Phase::Started,
            r is Err ==> *final(self) == *old(self),
            final(self).bridge == old(self).bridge,
            final(self).engine == old(self).engine,
    {
        match self.phase {
            Phase::PreStarted => {
                match self.bridge.start() {
                    Ok(a) => {
                        self.phase = Phase::Started;
                        Ok(a)
                    },
                    Err(e) => Err(e),
                }
            },
            _ => Err(BootstrapError::NotReady),
        }
    }
}

/// A missing environment artifact at stage one (the runtime configuration,
/// say) surfaces as its environment error while the process is still
/// unpatched: initialization answers with the artifact's error and a pipeline
/// that has not passed the patch phase holds no hook at all.
pub proof fn lemma_env_error_precedes_hooks(b: Bootstrap, env: Stage1Env)
    requires
        b.wf(),
        b.phase == Phase::Classified,
        b.variant != Some(RuntimeVariant::Mono),
        env.hostfxr_loaded,
        !env.runtime_config_exists,
    ensures
        b.spec_init(env) == Err::<usize, BootstrapError>(
            BootstrapError::Environment(crate::errors::EnvArtifact::RuntimeConfig),
        ),
        b.engine.hooks@.len() == 0,
{
}

/// A missing runtime-internal export aborts the symbol-patch layer before the
/// hook engine ever runs: patch planning answers with the symbol's error, and
/// a pipeline that has not passed the patch phase holds no hook at all.
pub proof fn lemma_symbol_error_precedes_hooks(b: Bootstrap, table: SymbolTable)
    requires
        b.wf(),
        b.phase == Phase::Classified,
        !table.has_export(crate::patches::trace_level_symbol()),
    ensures
        spec_plan_runtime_patches(table) == Err::<PatchPlan, BootstrapError>(
            BootstrapError::SymbolMissing(KnownSymbol::TraceSetLevelString),
        ),
        b.engine.hooks@.len() == 0,
{
}

} // verus!
