use melon_bootstrap::bridge::{BridgeState, HostExports, HostImports, Stage1Env};
use melon_bootstrap::detector::{classify, RuntimeVariant};
use melon_bootstrap::errors::{BootstrapError, EnvArtifact, HookError, ImportSlot, KnownSymbol};
use melon_bootstrap::pipeline::{Bootstrap, Phase};
use melon_bootstrap::symbols::SymbolTable;

fn exports() -> HostExports {
    HostExports {
        hook_attach: 0x1001,
        hook_detach: 0x1002,
        log_console: 0x1003,
        get_java_vm: 0x1004,
        get_package_name: 0x1005,
    }
}

fn il2cpp_table() -> SymbolTable {
    let mut t = SymbolTable::new();
    t.insert("il2cpp_init".to_string(), 0x4000);
    t.insert("mono_trace_set_level_string".to_string(), 0x4100);
    t.insert("mono_trace_set_mask_string".to_string(), 0x4200);
    t.insert("mono_install_unhandled_exception_hook".to_string(), 0x4300);
    t.insert("mono_melonloader_set_thread_checker".to_string(), 0x4400);
    t
}

fn good_env() -> Stage1Env {
    Stage1Env {
        hostfxr_loaded: true,
        runtime_config_exists: true,
        runtime_context_ok: true,
        host_module_loadable: true,
        stage1_entry: Some(0x2000),
    }
}

#[test]
fn classify_il2cpp_host() {
    let t = il2cpp_table();
    assert_eq!(classify(&t), Ok(RuntimeVariant::Il2Cpp));
}

#[test]
fn classify_mono_host() {
    let mut t = SymbolTable::new();
    t.insert("mono_jit_init_version".to_string(), 0x4000);
    assert_eq!(classify(&t), Ok(RuntimeVariant::Mono));
}

#[test]
fn classify_unknown_host_is_fatal() {
    let mut t = SymbolTable::new();
    t.insert("some_unrelated_export".to_string(), 0x4000);
    assert_eq!(classify(&t), Err(BootstrapError::UnknownRuntime));
}

#[test]
fn classify_prefers_single_variant_when_both_markers_exist() {
    let mut t = SymbolTable::new();
    t.insert("il2cpp_init".to_string(), 0x4000);
    t.insert("mono_jit_init_version".to_string(), 0x5000);
    assert_eq!(classify(&t), Ok(RuntimeVariant::Il2Cpp));
}

#[test]
fn mono_variant_is_rejected_at_init() {
    let mut b = Bootstrap::new(exports());
    let mut t = SymbolTable::new();
    t.insert("mono_jit_init_version".to_string(), 0x4000);
    assert_eq!(b.classify_runtime(&t), Ok(RuntimeVariant::Mono));
    assert_eq!(b.init(&good_env()), Err(BootstrapError::UnsupportedRuntime));
}

#[test]
fn missing_config_aborts_before_any_hook() {
    let mut b = Bootstrap::new(exports());
    let t = il2cpp_table();
    b.classify_runtime(&t).unwrap();
    let env = Stage1Env { runtime_config_exists: false, ..good_env() };
    assert_eq!(
        b.init(&env),
        Err(BootstrapError::Environment(EnvArtifact::RuntimeConfig))
    );
    assert!(b.engine.hooks.is_empty());
    assert_eq!(b.bridge.state, BridgeState::Unloaded);
}

#[test]
fn missing_trace_symbol_aborts_before_hook_engine_runs() {
    let mut b = Bootstrap::new(exports());
    let mut t = il2cpp_table();
    b.classify_runtime(&t).unwrap();
    b.init(&good_env()).unwrap();
    // A runtime build without the trace-level export: remove it from the probe table.
    t = SymbolTable::new();
    t.insert("il2cpp_init".to_string(), 0x4000);
    assert_eq!(
        b.plan_patches(&t),
        Err(BootstrapError::SymbolMissing(KnownSymbol::TraceSetLevelString))
    );
    assert!(b.engine.hooks.is_empty());
    assert_eq!(b.phase, Phase::Classified);
}

#[test]
fn lifecycle_rejected_before_ready() {
    let mut b = Bootstrap::new(exports());
    assert_eq!(b.pre_start(), Err(BootstrapError::NotReady));
    assert_eq!(b.start(), Err(BootstrapError::NotReady));
    let t = il2cpp_table();
    b.classify_runtime(&t).unwrap();
    b.init(&good_env()).unwrap();
    b.plan_patches(&t).unwrap();
    // Still mid-handshake: nothing published, lifecycle calls stay rejected.
    assert_eq!(b.pre_start(), Err(BootstrapError::NotReady));
    assert_eq!(b.start(), Err(BootstrapError::NotReady));
}

#[test]
fn start_rejected_before_pre_start() {
    let mut b = successful_run_until_hooked();
    assert_eq!(b.start(), Err(BootstrapError::NotReady));
    assert_eq!(b.pre_start(), Ok(0x3002));
    assert_eq!(b.start(), Ok(0x3003));
}

fn successful_run_until_hooked() -> Bootstrap {
    let mut b = Bootstrap::new(exports());
    let t = il2cpp_table();
    assert_eq!(b.classify_runtime(&t), Ok(RuntimeVariant::Il2Cpp));
    let entry = b.init(&good_env()).unwrap();
    assert_eq!(entry, 0x2000);
    b.plan_patches(&t).unwrap();
    // Stage one: the managed host fills in the resolver.
    let stage1 = HostImports {
        load_assembly_get_ptr: 0x3000,
        initialize: 0,
        pre_start: 0,
        start: 0,
    };
    b.complete_stage1(stage1).unwrap();
    let (resolver, handed) = b.begin_stage2();
    assert_eq!(resolver, 0x3000);
    assert_eq!(handed, exports());
    // Stage two: the managed host fills in the remaining slots.
    let stage2 = HostImports {
        load_assembly_get_ptr: 0x3000,
        initialize: 0x3001,
        pre_start: 0x3002,
        start: 0x3003,
    };
    let init_entry = b.complete_stage2(0x2100, stage2).unwrap();
    assert_eq!(init_entry, 0x3001);
    assert_eq!(b.bridge.state, BridgeState::Ready);
    b.publish();
    let rec = b.install_init_hook(&il2cpp_table(), 0x6000, 0x7000).unwrap();
    assert_eq!(rec.target, 0x4000);
    assert_eq!(rec.replacement, 0x6000);
    assert_eq!(rec.trampoline, 0x7000);
    assert!(rec.installed);
    b
}

#[test]
fn successful_run_invokes_lifecycle_in_order_exactly_once() {
    let mut b = successful_run_until_hooked();
    // The detour dispatches calls of the init export to the replacement.
    assert_eq!(b.engine.dispatch(0x4000), 0x6000);
    assert_eq!(b.pre_start(), Ok(0x3002));
    assert_eq!(b.start(), Ok(0x3003));
    // Each entry is handed out exactly once.
    assert_eq!(b.pre_start(), Err(BootstrapError::NotReady));
    assert_eq!(b.start(), Err(BootstrapError::NotReady));
    assert_eq!(b.phase, Phase::Started);
}

#[test]
fn ready_requires_nonnull_initialize_slot() {
    let mut b = Bootstrap::new(exports());
    let t = il2cpp_table();
    b.classify_runtime(&t).unwrap();
    b.init(&good_env()).unwrap();
    b.plan_patches(&t).unwrap();
    let stage1 = HostImports { load_assembly_get_ptr: 0x3000, initialize: 0, pre_start: 0, start: 0 };
    b.complete_stage1(stage1).unwrap();
    let _ = b.begin_stage2();
    let incomplete = HostImports { load_assembly_get_ptr: 0x3000, initialize: 0, pre_start: 0x2, start: 0x3 };
    assert_eq!(
        b.complete_stage2(0x2100, incomplete),
        Err(BootstrapError::NullImportSlot(ImportSlot::Initialize))
    );
    assert_ne!(b.bridge.state, BridgeState::Ready);
    assert_eq!(b.pre_start(), Err(BootstrapError::NotReady));
}

#[test]
fn stage1_must_populate_resolver() {
    let mut b = Bootstrap::new(exports());
    let t = il2cpp_table();
    b.classify_runtime(&t).unwrap();
    b.init(&good_env()).unwrap();
    b.plan_patches(&t).unwrap();
    let empty = HostImports { load_assembly_get_ptr: 0, initialize: 0, pre_start: 0, start: 0 };
    assert_eq!(
        b.complete_stage1(empty),
        Err(BootstrapError::NullImportSlot(ImportSlot::LoadAssemblyGetPtr))
    );
}

#[test]
fn stage2_entry_missing_is_fatal() {
    let mut b = Bootstrap::new(exports());
    let t = il2cpp_table();
    b.classify_runtime(&t).unwrap();
    b.init(&good_env()).unwrap();
    b.plan_patches(&t).unwrap();
    let stage1 = HostImports { load_assembly_get_ptr: 0x3000, initialize: 0, pre_start: 0, start: 0 };
    b.complete_stage1(stage1).unwrap();
    let _ = b.begin_stage2();
    let full = HostImports { load_assembly_get_ptr: 0x3000, initialize: 0x1, pre_start: 0x2, start: 0x3 };
    assert_eq!(
        b.complete_stage2(0, full),
        Err(BootstrapError::SymbolMissing(KnownSymbol::StageTwoEntry))
    );
}

#[test]
fn null_lifecycle_slots_are_named() {
    let mut b = Bootstrap::new(exports());
    let t = il2cpp_table();
    b.classify_runtime(&t).unwrap();
    b.init(&good_env()).unwrap();
    b.plan_patches(&t).unwrap();
    let stage1 = HostImports { load_assembly_get_ptr: 0x3000, initialize: 0, pre_start: 0, start: 0 };
    b.complete_stage1(stage1).unwrap();
    let _ = b.begin_stage2();
    // The completion check demands only the initialize slot; a null lifecycle
    // slot surfaces, named, when its entry is first requested.
    let sparse = HostImports { load_assembly_get_ptr: 0x3000, initialize: 0x3001, pre_start: 0, start: 0 };
    b.complete_stage2(0x2100, sparse).unwrap();
    b.publish();
    b.install_init_hook(&il2cpp_table(), 0x6000, 0x7000).unwrap();
    assert_eq!(
        b.pre_start(),
        Err(BootstrapError::NullImportSlot(ImportSlot::PreStart))
    );
}

#[test]
fn stage1_environment_probe_order() {
    let mut b = Bootstrap::new(exports());
    let t = il2cpp_table();
    b.classify_runtime(&t).unwrap();
    let env = Stage1Env { hostfxr_loaded: false, runtime_config_exists: false, ..good_env() };
    assert_eq!(
        b.init(&env),
        Err(BootstrapError::Environment(EnvArtifact::HostFxrLibrary))
    );
    let env = Stage1Env { runtime_context_ok: false, ..good_env() };
    assert_eq!(b.init(&env), Err(BootstrapError::RuntimeInitFailed));
    let env = Stage1Env { host_module_loadable: false, ..good_env() };
    assert_eq!(
        b.init(&env),
        Err(BootstrapError::Environment(EnvArtifact::HostModule))
    );
    let env = Stage1Env { stage1_entry: None, ..good_env() };
    assert_eq!(
        b.init(&env),
        Err(BootstrapError::SymbolMissing(KnownSymbol::StageOneEntry))
    );
}

#[test]
fn missing_init_export_is_fatal_at_hook_time() {
    let mut b = Bootstrap::new(exports());
    let t = il2cpp_table();
    b.classify_runtime(&t).unwrap();
    b.init(&good_env()).unwrap();
    b.plan_patches(&t).unwrap();
    let stage1 = HostImports { load_assembly_get_ptr: 0x3000, initialize: 0, pre_start: 0, start: 0 };
    b.complete_stage1(stage1).unwrap();
    let _ = b.begin_stage2();
    let full = HostImports { load_assembly_get_ptr: 0x3000, initialize: 0x1, pre_start: 0x2, start: 0x3 };
    b.complete_stage2(0x2100, full).unwrap();
    b.publish();
    let bare = SymbolTable::new();
    assert_eq!(
        b.install_init_hook(&bare, 0x6000, 0x7000),
        Err(BootstrapError::SymbolMissing(KnownSymbol::RuntimeInit))
    );
    // A null detour is surfaced as the hook engine's own error.
    assert_eq!(
        b.install_init_hook(&il2cpp_table(), 0, 0x7000),
        Err(BootstrapError::Hook(HookError::NullReplacement))
    );
}
