use melon_bootstrap::assets::{apk_mod_secs, is_date_asset, should_skip_copy};
use melon_bootstrap::detector::RuntimeVariant;
use melon_bootstrap::errors::{BootstrapError, EnvArtifact, KnownSymbol};
use melon_bootstrap::package_guard::{is_blocked_package, package_hash, plan_data_dir, to_hex};
use melon_bootstrap::paths::{
    base_dir_from_args, basedir_arg_value, current_dir, get_dotnet_path, get_internal_data_path,
    get_managed_dir, get_package_name, melonloader_folder, path_join, runtime_dir,
};
use melon_bootstrap::patches::{
    exception_observer_action, mono_check_thread, plan_runtime_patches, trace_level_arg,
    trace_mask_arg, PatchPlan,
};
use melon_bootstrap::registry::{init, IcallAddrs, Registry};
use melon_bootstrap::symbols::SymbolTable;

#[test]
fn thread_checker_splits_on_attachment() {
    let attached: Vec<u64> = vec![0x10, 0x20, 0x30];
    // Attached engine threads are never safe to patch around.
    assert!(!mono_check_thread(0x10, &attached));
    assert!(!mono_check_thread(0x30, &attached));
    // Every other thread is.
    assert!(mono_check_thread(0x40, &attached));
    assert!(mono_check_thread(0, &attached));
    let none: Vec<u64> = Vec::new();
    assert!(mono_check_thread(0x10, &none));
}

#[test]
fn exception_observer_tolerates_null() {
    let mut t = SymbolTable::new();
    t.insert("mono_print_unhandled_exception".to_string(), 0x900);
    assert_eq!(exception_observer_action(&t, 0), Ok(None));
    assert_eq!(exception_observer_action(&t, 0x42), Ok(Some(0x900)));
    let bare = SymbolTable::new();
    assert_eq!(exception_observer_action(&bare, 0), Ok(None));
    assert_eq!(
        exception_observer_action(&bare, 0x42),
        Err(BootstrapError::SymbolMissing(KnownSymbol::PrintUnhandledException))
    );
}

#[test]
fn patch_plan_names_the_first_missing_export() {
    let mut t = SymbolTable::new();
    t.insert("mono_trace_set_level_string".to_string(), 1);
    assert_eq!(
        plan_runtime_patches(&t),
        Err(BootstrapError::SymbolMissing(KnownSymbol::TraceSetMaskString))
    );
    t.insert("mono_trace_set_mask_string".to_string(), 2);
    assert_eq!(
        plan_runtime_patches(&t),
        Err(BootstrapError::SymbolMissing(KnownSymbol::InstallUnhandledExceptionHook))
    );
    t.insert("mono_install_unhandled_exception_hook".to_string(), 3);
    assert_eq!(
        plan_runtime_patches(&t),
        Err(BootstrapError::SymbolMissing(KnownSymbol::SetThreadChecker))
    );
}

#[test]
fn patch_plan_resolves_all_four_exports() {
    let mut t = SymbolTable::new();
    t.insert("mono_trace_set_level_string".to_string(), 1);
    t.insert("mono_trace_set_mask_string".to_string(), 2);
    t.insert("mono_install_unhandled_exception_hook".to_string(), 3);
    t.insert("mono_melonloader_set_thread_checker".to_string(), 4);
    assert_eq!(
        plan_runtime_patches(&t),
        Ok(PatchPlan {
            set_trace_level: 1,
            set_trace_mask: 2,
            install_exception_hook: 3,
            set_thread_checker: 4,
        })
    );
    assert_eq!(trace_level_arg(), "warning");
    assert_eq!(trace_mask_arg(), "all");
}

#[test]
fn registry_binds_the_fixed_surface() {
    let mut reg = Registry::new();
    let addrs = IcallAddrs {
        is_32_bit: 1,
        hook_attach: 2,
        hook_detach: 3,
        log_console: 4,
        get_java_vm: 5,
        get_package_name: 6,
        get_lib_ptr: 7,
        cast_assembly_ptr: 8,
        get_domain_ptr: 9,
        install_hooks: 10,
        get_managed_dir: 11,
    };
    init(&mut reg, &addrs).unwrap();
    assert_eq!(reg.table.get_export_ptr("MelonLoader.MelonUtils::IsGame32Bit"), Some(1));
    assert_eq!(
        reg.table.get_export_ptr("MelonLoader.BootstrapInterop::NativeHookAttach"),
        Some(2)
    );
    assert_eq!(
        reg.table.get_export_ptr("MelonLoader.Support.Preload::GetManagedDirectory"),
        Some(11)
    );
    assert_eq!(reg.table.get_export_ptr("MelonLoader.Missing::Name"), None);
    // Registering once more under a taken name is the fatal collision.
    assert_eq!(
        reg.register("MelonLoader.MelonUtils::IsGame32Bit".to_string(), 99),
        Err(BootstrapError::NameCollision)
    );
    // A second full registration pass collides immediately.
    assert_eq!(init(&mut reg, &addrs), Err(BootstrapError::NameCollision));
}

#[test]
fn base_dir_argument_parsing() {
    assert_eq!(
        basedir_arg_value("--melonloader.basedir=/sdcard/game"),
        Some("/sdcard/game".to_string())
    );
    // The value runs to the next separator, as positional splitting has it.
    assert_eq!(
        basedir_arg_value("--melonloader.basedir=/a=b"),
        Some("/a".to_string())
    );
    assert_eq!(basedir_arg_value("--melonloader.basedir"), None);
    assert_eq!(basedir_arg_value("--other=/x"), None);

    let args = vec![
        "game".to_string(),
        "--melonloader.basedir=/first".to_string(),
        "--melonloader.basedir=/second".to_string(),
        "--verbose".to_string(),
    ];
    assert_eq!(base_dir_from_args(&args, "/fallback"), "/second");
    let none: Vec<String> = vec!["game".to_string()];
    assert_eq!(base_dir_from_args(&none, "/fallback"), "/fallback");
}

#[test]
fn fixed_path_layout() {
    assert_eq!(path_join("/base", "x"), "/base/x");
    assert_eq!(melonloader_folder("/sdcard/ml/com.game"), "/sdcard/ml/com.game/MelonLoader");
    assert_eq!(
        runtime_dir(RuntimeVariant::Il2Cpp, "/sdcard/b"),
        "/sdcard/b/MelonLoader/net8"
    );
    assert_eq!(
        runtime_dir(RuntimeVariant::Mono, "/sdcard/b"),
        "/sdcard/b/MelonLoader/net35"
    );
    assert_eq!(get_internal_data_path("com.game"), "/data/data/com.game");
    assert_eq!(get_dotnet_path("com.game"), "/data/data/com.game/dotnet");
}

#[test]
fn cached_state_reads() {
    assert_eq!(get_package_name(&Some("com.game".to_string())), Ok("com.game".to_string()));
    assert_eq!(
        get_package_name(&None),
        Err(BootstrapError::Environment(EnvArtifact::PackageName))
    );
    assert_eq!(current_dir(&Some("/d".to_string())), Ok("/d".to_string()));
    assert_eq!(
        current_dir(&None),
        Err(BootstrapError::Environment(EnvArtifact::DataDirectory))
    );
}

#[test]
fn managed_dir_candidates() {
    assert_eq!(
        get_managed_dir("/game", "Game", true, false),
        Ok("/game/Game_Data/Managed".to_string())
    );
    assert_eq!(
        get_managed_dir("/game", "Game", false, true),
        Ok("/game/MelonLoader/Managed".to_string())
    );
    assert_eq!(
        get_managed_dir("/game", "Game", false, false),
        Err(BootstrapError::Environment(EnvArtifact::ManagedDirectory))
    );
}

#[test]
fn package_digest_is_hex_of_md5() {
    // Known digests pin the trusted wrapper and the verified hex rendering.
    assert_eq!(package_hash("abc"), "900150983cd24fb0d6963f7d28e17f72");
    assert_eq!(package_hash(""), "d41d8cd98f00b204e9800998ecf8427e");
    assert_eq!(to_hex(&vec![0x00, 0xff, 0x1a]), "00ff1a");
    assert_eq!(to_hex(&Vec::new()), "");
}

#[test]
fn data_dir_plan_for_ordinary_package() {
    assert!(!is_blocked_package("com.example.app"));
    let plan = plan_data_dir("/sdcard", "com.example.app").unwrap();
    assert_eq!(plan.data_dir, "/sdcard/MelonLoader/com.example.app");
    assert_eq!(plan.package_name, "com.example.app");
}

#[test]
fn apk_date_rules() {
    assert_eq!(apk_mod_secs(Some("2024-01-15T10:30:00+00:00")), Ok(1705314600));
    assert_eq!(apk_mod_secs(None), Ok(i64::MAX));
    assert_eq!(
        apk_mod_secs(Some("not a date")),
        Err(BootstrapError::Environment(EnvArtifact::PatchDate))
    );
    assert!(is_date_asset("lemon_patch_date.txt"));
    assert!(!is_date_asset("other.txt"));
    // A fresh on-disk copy is kept; a stale or missing one is replaced.
    assert!(should_skip_copy(Some(1705314601), 1705314600));
    assert!(!should_skip_copy(Some(1705314600), 1705314600));
    assert!(!should_skip_copy(None, 1705314600));
    assert!(!should_skip_copy(Some(5), -1));
}
