use melon_bootstrap::errors::HookError;
use melon_bootstrap::hook::{HookEngine, HookRecord};
use melon_bootstrap::interop::{attach, detach};

#[test]
fn hook_redirects_and_keeps_original_reachable() {
    let mut e = HookEngine::new();
    let rec = e.hook(0x100, 0x200, 0x300).unwrap();
    assert_eq!(
        rec,
        HookRecord { target: 0x100, replacement: 0x200, trampoline: 0x300, installed: true }
    );
    // Every call through the target now observes the replacement...
    assert_eq!(e.dispatch(0x100), 0x200);
    // ...while the original entry stays reachable through the trampoline,
    // which is itself redirected nowhere.
    assert_eq!(e.original_entry(0x100), 0x300);
    assert_eq!(e.dispatch(0x300), 0x300);
    // Unrelated addresses are untouched.
    assert_eq!(e.dispatch(0x555), 0x555);
}

#[test]
fn unhook_restores_the_target() {
    let mut e = HookEngine::new();
    e.hook(0x100, 0x200, 0x300).unwrap();
    let detached = e.unhook(0x100).unwrap();
    assert_eq!(
        detached,
        HookRecord { target: 0x100, replacement: 0x200, trampoline: 0x300, installed: false }
    );
    assert_eq!(e.dispatch(0x100), 0x100);
    assert_eq!(e.unhook(0x100), Err(HookError::NotInstalled));
    // The restored target can be hooked again.
    assert!(e.hook(0x100, 0x400, 0x500).is_ok());
    assert_eq!(e.dispatch(0x100), 0x400);
}

#[test]
fn hook_error_taxonomy() {
    let mut e = HookEngine::new();
    assert_eq!(e.hook(0, 0x200, 0x300), Err(HookError::NullTarget));
    assert_eq!(e.hook(0x100, 0, 0x300), Err(HookError::NullReplacement));
    assert_eq!(e.hook(0x100, 0x200, 0), Err(HookError::PatchRejected));
    assert_eq!(e.hook(0x100, 0x200, 0x100), Err(HookError::PatchRejected));
    e.hook(0x100, 0x200, 0x300).unwrap();
    assert_eq!(e.hook(0x100, 0x600, 0x700), Err(HookError::AlreadyInstalled));
    // A trampoline aliasing an existing target is rejected too.
    assert_eq!(e.hook(0x900, 0x600, 0x100), Err(HookError::PatchRejected));
}

#[test]
fn multiple_hooks_dispatch_independently() {
    let mut e = HookEngine::new();
    e.hook(0x100, 0x200, 0x300).unwrap();
    e.hook(0x110, 0x210, 0x310).unwrap();
    assert_eq!(e.dispatch(0x100), 0x200);
    assert_eq!(e.dispatch(0x110), 0x210);
    e.unhook(0x100).unwrap();
    assert_eq!(e.dispatch(0x100), 0x100);
    assert_eq!(e.dispatch(0x110), 0x210);
}

#[test]
fn managed_attach_matches_native_hook() {
    // The Export Table's attach/detach entries and the native calls agree:
    // same record, same rejection, same dispatch, from equal engine states.
    let mut native = HookEngine::new();
    let mut managed = HookEngine::new();
    let a = native.hook(0x100, 0x200, 0x300);
    let b = attach(&mut managed, 0x100, 0x200, 0x300);
    assert_eq!(a, b);
    assert_eq!(native.dispatch(0x100), managed.dispatch(0x100));
    assert_eq!(native.original_entry(0x100), managed.original_entry(0x100));
    let a2 = native.hook(0x100, 0x600, 0x700);
    let b2 = attach(&mut managed, 0x100, 0x600, 0x700);
    assert_eq!(a2, b2);
    assert_eq!(a2, Err(HookError::AlreadyInstalled));
    let d1 = native.unhook(0x100);
    let d2 = detach(&mut managed, 0x100);
    assert_eq!(d1, d2);
    assert_eq!(native.dispatch(0x100), 0x100);
    assert_eq!(managed.dispatch(0x100), 0x100);
}
