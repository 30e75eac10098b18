//! The hook entries handed to the managed host: the Export Table's
//! hook-attach and hook-detach functions, also bound in the internal-call
//! registry.
//!
//! Both paths go through the same engine under the same contract, so a
//! managed-initiated hook has exactly the native `hook` call's semantics:
//! same record, same rejection, same dispatch afterwards.

use vstd::prelude::*;
use crate::errors::HookError;
use crate::hook::{
    spec_hook_result, spec_hooks_after, spec_hooks_without, spec_unhook_result, HookEngine,
    HookRecord,
};

verus! {

/// The managed host's hook-attach entry: installs a detour exactly as a
/// native `hook` call does, against the same engine state, with the same
/// record, errors and dispatch semantics.
pub fn attach(engine: &mut HookEngine, target: usize, replacement: usize, trampoline: usize) -> (r:
    Result<HookRecord, HookError>)
    requires
        old(engine).wf(),
    ensures
        final(engine).wf(),
        r == spec_hook_result(old(engine).hooks@, target, replacement, trampoline),
        final(engine).hooks@ == spec_hooks_after(old(engine).hooks@, target, replacement, trampoline),
        r is Ok ==> final(engine).spec_dispatch(target) == replacement
            && final(engine).spec_original_entry(target) == trampoline,
        forall|a: usize| a != target ==> final(engine).spec_dispatch(a) == old(engine).spec_dispatch(a),
{
    engine.hook(target, replacement, trampoline)
}

/// The managed host's hook-detach entry: removes a detour exactly as a native
/// `unhook` call does.
pub fn detach(engine: &mut HookEngine, target: usize) -> (r: Result<HookRecord, HookError>)
    requires
        old(engine).wf(),
    ensures
        final(engine).wf(),
        r == spec_unhook_result(old(engine).hooks@, target),
        final(engine).hooks@ == spec_hooks_without(old(engine).hooks@, target),
        !final(engine).spec_hooked_at(target),
        forall|a: usize| a != target ==> final(engine).spec_dispatch(a) == old(engine).spec_dispatch(a),
{
    engine.unhook(target)
}

/// Symmetry of the two call paths: from equal engine states, the Export
/// Table's attach entry and a native `hook` call are decided by one spec —
/// the same record comes back and the same hook set results.
pub proof fn lemma_attach_matches_native_hook(
    s: Seq<HookRecord>,
    target: usize,
    replacement: usize,
    trampoline: usize,
)
    ensures
        spec_hook_result(s, target, replacement, trampoline) matches Ok(rec) ==> rec
            == (HookRecord { target, replacement, trampoline, installed: true }),
        spec_hooks_after(s, target, replacement, trampoline) == if spec_hook_result(
            s,
            target,
            replacement,
            trampoline,
        ) is Ok {
            s.push(HookRecord { target, replacement, trampoline, installed: true })
        } else {
            s
        },
{
}

} // verus!
