//! The native hook engine's bookkeeping and dispatch model.
//!
//! A hook rewrites a target function's entry so control transfers to a
//! replacement, while a trampoline keeps the original entry reachable. The
//! byte-level patch is applied by a primitive outside this library; what is
//! modelled here is everything the bootstrap decides and guarantees about it:
//! which requests are accepted, which distinguishable error each rejected
//! request gets, and where a call through any address lands once the engine
//! holds a set of installed hooks.

use vstd::prelude::*;
use crate::errors::HookError;

verus! {

/// One installed (or restored) detour: the patched target, the replacement
/// that calls now reach, and the trampoline through which the original entry
/// stays reachable.
#[derive(Clone, Copy, Debug, PartialEq, Eq, Structural)]
pub struct HookRecord {
    pub target: usize,
    pub replacement: usize,
    pub trampoline: usize,
    pub installed: bool,
}

/// The set of hooks currently installed in the process.
pub struct HookEngine {
    pub hooks: Vec<HookRecord>,
}

/// No two records patch the same target.
pub open spec fn targets_unique(s: Seq<HookRecord>) -> bool {
    forall|a: int, b: int|
        0 <= a < b < s.len() ==> (#[trigger] s[a]).target != (#[trigger] s[b]).target
}

/// Every held record is an installed patch with non-null addresses.
pub open spec fn records_valid(s: Seq<HookRecord>) -> bool {
    forall|i: int|
        0 <= i < s.len() ==> {
            let r = #[trigger] s[i];
            r.installed && r.target != 0 && r.replacement != 0 && r.trampoline != 0
        }
}

/// No trampoline is itself a patched target, so a call through a trampoline
/// reaches original code rather than another detour.
pub open spec fn trampolines_clear(s: Seq<HookRecord>) -> bool {
    forall|a: int, b: int|
        0 <= a < s.len() && 0 <= b < s.len() ==> (#[trigger] s[a]).trampoline != (
        #[trigger] s[b]).target
}

/// Whether some record in `s` patches `addr`.
pub open spec fn seq_hooked_at(s: Seq<HookRecord>, addr: usize) -> bool {
    exists|i: int| 0 <= i < s.len() && (#[trigger] s[i]).target == addr
}

/// The record patching `addr` (meaningful only under unique targets).
pub open spec fn seq_record_of(s: Seq<HookRecord>, addr: usize) -> HookRecord {
    s[choose|i: int| 0 <= i < s.len() && (#[trigger] s[i]).target == addr]
}

/// Where a call through `addr` lands: the replacement where `addr` is a
/// patched target, otherwise `addr`'s own code.
pub open spec fn seq_dispatch(s: Seq<HookRecord>, addr: usize) -> usize {
    if seq_hooked_at(s, addr) {
        seq_record_of(s, addr).replacement
    } else {
        addr
    }
}

/// Where the pre-hook original of `addr` is still reachable: through the
/// trampoline where `addr` is patched, at `addr` itself otherwise.
pub open spec fn seq_original_entry(s: Seq<HookRecord>, addr: usize) -> usize {
    if seq_hooked_at(s, addr) {
        seq_record_of(s, addr).trampoline
    } else {
        addr
    }
}

/// The record a successful hook request installs.
pub open spec fn new_record(target: usize, replacement: usize, trampoline: usize) -> HookRecord {
    HookRecord { target, replacement, trampoline, installed: true }
}

/// The patch primitive's trampoline is acceptable: non-null, distinct from the
/// target, not the target of any existing hook, and no existing trampoline
/// already aliases the new target.
pub open spec fn trampoline_fresh(s: Seq<HookRecord>, target: usize, trampoline: usize) -> bool {
    &&& trampoline != 0
    &&& trampoline != target
    &&& forall|i: int| 0 <= i < s.len() ==> (#[trigger] s[i]).target != trampoline
    &&& forall|i: int| 0 <= i < s.len() ==> (#[trigger] s[i]).trampoline != target
}

/// The exact outcome of a hook request against the hook set `s`.
pub open spec fn spec_hook_result(
    s: Seq<HookRecord>,
    target: usize,
    replacement: usize,
    trampoline: usize,
) -> Result<HookRecord, HookError> {
    if target == 0 {
        Err(HookError::NullTarget)
    } else if replacement == 0 {
        Err(HookError::NullReplacement)
    } else if seq_hooked_at(s, target) {
        Err(HookError::AlreadyInstalled)
    } else if !trampoline_fresh(s, target, trampoline) {
        Err(HookError::PatchRejected)
    } else {
        Ok(new_record(target, replacement, trampoline))
    }
}

/// The hook set after a hook request: extended on success, unchanged on error.
pub open spec fn spec_hooks_after(
    s: Seq<HookRecord>,
    target: usize,
    replacement: usize,
    trampoline: usize,
) -> Seq<HookRecord> {
    if spec_hook_result(s, target, replacement, trampoline) is Ok {
        s.push(new_record(target, replacement, trampoline))
    } else {
        s
    }
}

/// The exact outcome of a detach request: the detached record (marked
/// uninstalled) or the error for a target that carries no hook.
pub open spec fn spec_unhook_result(s: Seq<HookRecord>, target: usize) -> Result<
    HookRecord,
    HookError,
> {
    if seq_hooked_at(s, target) {
        Ok(HookRecord { installed: false, ..seq_record_of(s, target) })
    } else {
        Err(HookError::NotInstalled)
    }
}

/// The hook set after a detach request.
pub open spec fn spec_hooks_without(s: Seq<HookRecord>, target: usize) -> Seq<HookRecord> {
    if seq_hooked_at(s, target) {
        s.remove(choose|i: int| 0 <= i < s.len() && (#[trigger] s[i]).target == target)
    } else {
        s
    }
}

impl HookEngine {
    /// Well-formedness of the engine's hook set.
    pub open spec fn wf(self) -> bool {
        targets_unique(self.hooks@) && records_valid(self.hooks@) && trampolines_clear(self.hooks@)
    }

    /// Whether `addr` currently carries an installed hook.
    pub open spec fn spec_hooked_at(self, addr: usize) -> bool {
        seq_hooked_at(self.hooks@, addr)
    }

    /// The record installed on `addr`.
    pub open spec fn spec_record_of(self, addr: usize) -> HookRecord {
        seq_record_of(self.hooks@, addr)
    }

    /// Where a call through `addr` lands.
    pub open spec fn spec_dispatch(self, addr: usize) -> usize {
        seq_dispatch(self.hooks@, addr)
    }

    /// Where the pre-hook original of `addr` is still reachable.
    pub open spec fn spec_original_entry(self, addr: usize) -> usize {
        seq_original_entry(self.hooks@, addr)
    }

    pub fn new() -> (r: HookEngine)
        ensures
            r.hooks@.len() == 0,
            r.wf(),
    {
        HookEngine { hooks: Vec::new() }
    }

    /// The first index holding a hook for `target`, if any.
    fn find_index(&self, target: usize) -> (r: Option<usize>)
        ensures
            match r {
                Some(i) => i < self.hooks@.len() && self.hooks@[i as int].target == target,
                None => !self.spec_hooked_at(target),
            },
    {
        let n = self.hooks.len();
        let mut i: usize = 0;
        while i < n
            invariant
                n == self.hooks@.len(),
                i <= n,
                forall|j: int| 0 <= j < i ==> (#[trigger] self.hooks@[j]).target != target,
            decreases n - i,
        {
            if self.hooks[i].target == target {
                return Some(i);
            }
            i += 1;
        }
        None
    }

    /// Where a call through `addr` lands under the current hook set.
    pub fn dispatch(&self, addr: usize) -> (r: usize)
        requires
            self.wf(),
        ensures
            r == self.spec_dispatch(addr),
    {
        match self.find_index(addr) {
            Some(i) => {
                proof {
                    lemma_unique_record(self.hooks@, addr, i as int);
                }
                self.hooks[i].replacement
            },
            None => addr,
        }
    }

    /// Where the original entry of `addr` remains reachable.
    pub fn original_entry(&self, addr: usize) -> (r: usize)
        requires
            self.wf(),
        ensures
            r == self.spec_original_entry(addr),
    {
        match self.find_index(addr) {
            Some(i) => {
                proof {
                    lemma_unique_record(self.hooks@, addr, i as int);
                }
                self.hooks[i].trampoline
            },
            None => addr,
        }
    }

    /// Installs a detour: every future call through `target` lands in
    /// `replacement`, and the original entry stays reachable through
    /// `trampoline` (the patch primitive's saved-prologue stub). Every
    /// rejected request gets a distinguishable error; a silently failed hook
    /// would leave the bootstrap hanging with no attributable cause.
    pub fn hook(&mut self, target: usize, replacement: usize, trampoline: usize) -> (r: Result<
        HookRecord,
        HookError,
    >)
        requires
            old(self).wf(),
        ensures
            final(self).wf(),
            r == spec_hook_result(old(self).hooks@, target, replacement, trampoline),
            final(self).hooks@ == spec_hooks_after(
                old(self).hooks@,
                target,
                replacement,
                trampoline,
            ),
            r is Ok ==> final(self).spec_dispatch(target) == replacement
                && final(self).spec_original_entry(target) == trampoline
                && final(self).spec_dispatch(trampoline) == trampoline,
            forall|a: usize|
                a != target ==> final(self).spec_dispatch(a) == old(self).spec_dispatch(a),
    {
        if target == 0 {
            return Err(HookError::NullTarget);
        }
        if replacement == 0 {
            return Err(HookError::NullReplacement);
        }
        if self.find_index(target).is_some() {
            return Err(HookError::AlreadyInstalled);
        }
        if trampoline == 0 || trampoline == target {
            return Err(HookError::PatchRejected);
        }
        let n = self.hooks.len();
        let mut i: usize = 0;
        while i < n
            invariant
                self.hooks@ == old(self).hooks@,
                old(self).wf(),
                !seq_hooked_at(old(self).hooks@, target),
                target != 0,
                replacement != 0,
                trampoline != 0,
                trampoline != target,
                n == self.hooks@.len(),
                i <= n,
                forall|j: int| 0 <= j < i ==> (#[trigger] self.hooks@[j]).target != trampoline,
                forall|j: int| 0 <= j < i ==> (#[trigger] self.hooks@[j]).trampoline != target,
            decreases n - i,
        {
            if self.hooks[i].target == trampoline || self.hooks[i].trampoline == target {
                return Err(HookError::PatchRejected);
            }
            i += 1;
        }
        let rec = HookRecord { target, replacement, trampoline, installed: true };
        let ghost pre = self.hooks@;
        self.hooks.push(rec);
        proof {
            let s = self.hooks@;
            let last = s.len() - 1;
            assert(s[last] == rec);
            lemma_unique_record(s, target, last);
            assert(!seq_hooked_at(s, trampoline)) by {
                assert forall|k: int| 0 <= k < s.len() implies (#[trigger] s[k]).target
                    != trampoline by {
                    if k < last {
                        assert(pre[k].target != trampoline);
                    }
                }
            }
            assert(targets_unique(s));
            assert(records_valid(s));
            assert(trampolines_clear(s)) by {
                assert forall|a: int, b: int|
                    0 <= a < s.len() && 0 <= b < s.len() implies (#[trigger] s[a]).trampoline != (
                #[trigger] s[b]).target by {
                    if a < last && b < last {
                        assert(pre[a].trampoline != pre[b].target);
                    } else if a == last && b < last {
                        assert(pre[b].target != trampoline);
                    } else if a < last && b == last {
                        assert(pre[a].trampoline != target);
                    }
                }
            }
            assert forall|a: usize|
                a != target implies seq_dispatch(s, a) == seq_dispatch(pre, a) by {
                lemma_dispatch_after_push(pre, rec, a);
            }
        }
        Ok(rec)
    }

    /// Removes the detour on `target` and returns its record, marked
    /// uninstalled, so the caller can restore the saved bytes. Calls through
    /// `target` reach the original entry again.
    pub fn unhook(&mut self, target: usize) -> (r: Result<HookRecord, HookError>)
        requires
            old(self).wf(),
        ensures
            final(self).wf(),
            r == spec_unhook_result(old(self).hooks@, target),
            final(self).hooks@ == spec_hooks_without(old(self).hooks@, target),
            !final(self).spec_hooked_at(target),
            forall|a: usize|
                a != target ==> final(self).spec_dispatch(a) == old(self).spec_dispatch(a),
    {
        match self.find_index(target) {
            None => Err(HookError::NotInstalled),
            Some(i) => {
                proof {
                    lemma_unique_record(self.hooks@, target, i as int);
                    lemma_choose_is_unique_index(self.hooks@, target, i as int);
                }
                let found = self.hooks[i];
                let ghost pre = self.hooks@;
                self.hooks.remove(i);
                proof {
                    lemma_remove_keeps_wf(pre, i as int);
                    assert forall|k: int|
                        0 <= k < self.hooks@.len() implies (#[trigger] self.hooks@[k]).target
                        != target by {
                        if k < i as int {
                            assert(pre[k].target != pre[i as int].target);
                        } else {
                            assert(self.hooks@[k] == pre[k + 1]);
                            assert(pre[i as int].target != pre[k + 1].target);
                        }
                    }
                    assert forall|a: usize|
                        a != target implies seq_dispatch(self.hooks@, a) == seq_dispatch(pre, a) by {
                        lemma_dispatch_after_remove(pre, i as int, a);
                    }
                }
                Ok(HookRecord { installed: false, ..found })
            },
        }
    }
}

/// Under unique targets, any index holding `target` holds the record that
/// `seq_record_of` denotes.
proof fn lemma_unique_record(s: Seq<HookRecord>, target: usize, i: int)
    requires
        0 <= i < s.len(),
        s[i].target == target,
        targets_unique(s),
    ensures
        seq_hooked_at(s, target),
        seq_record_of(s, target) == s[i],
{
    assert(seq_hooked_at(s, target));
    let c = choose|k: int| 0 <= k < s.len() && (#[trigger] s[k]).target == target;
    if c < i {
        assert(s[c].target != s[i].target);
    } else if i < c {
        assert(s[i].target != s[c].target);
    }
}

/// Under unique targets, the chosen witness index is the only one.
proof fn lemma_choose_is_unique_index(s: Seq<HookRecord>, target: usize, i: int)
    requires
        0 <= i < s.len(),
        s[i].target == target,
        targets_unique(s),
    ensures
        (choose|k: int| 0 <= k < s.len() && (#[trigger] s[k]).target == target) == i,
{
    assert(seq_hooked_at(s, target));
    let c = choose|k: int| 0 <= k < s.len() && (#[trigger] s[k]).target == target;
    if c < i {
        assert(s[c].target != s[i].target);
    } else if i < c {
        assert(s[i].target != s[c].target);
    }
}

/// Appending a record for a fresh target leaves dispatch on every other
/// address unchanged.
proof fn lemma_dispatch_after_push(pre: Seq<HookRecord>, rec: HookRecord, a: usize)
    requires
        a != rec.target,
        targets_unique(pre),
    ensures
        seq_dispatch(pre.push(rec), a) == seq_dispatch(pre, a),
{
    let s = pre.push(rec);
    let last = pre.len() as int;
    if seq_hooked_at(pre, a) {
        let k = choose|k: int| 0 <= k < pre.len() && (#[trigger] pre[k]).target == a;
        assert(s[k] == pre[k]);
        assert(seq_hooked_at(s, a));
        let c = choose|c: int| 0 <= c < s.len() && (#[trigger] s[c]).target == a;
        assert(c != last);
        assert(s[c] == pre[c]);
        lemma_unique_record(pre, a, c);
    } else {
        assert forall|k: int| 0 <= k < s.len() implies (#[trigger] s[k]).target != a by {
            if k < last {
                assert(pre[k] == s[k]);
                assert(!seq_hooked_at(pre, a));
            }
        }
        assert(!seq_hooked_at(s, a));
    }
}

/// Removing a record keeps all three well-formedness clauses.
proof fn lemma_remove_keeps_wf(pre: Seq<HookRecord>, i: int)
    requires
        0 <= i < pre.len(),
        targets_unique(pre),
        records_valid(pre),
        trampolines_clear(pre),
    ensures
        targets_unique(pre.remove(i)),
        records_valid(pre.remove(i)),
        trampolines_clear(pre.remove(i)),
{
    let s = pre.remove(i);
    assert forall|a: int, b: int|
        0 <= a < b < s.len() implies (#[trigger] s[a]).target != (#[trigger] s[b]).target by {
        let pa: int = if a < i {
            a
        } else {
            a + 1
        };
        let pb: int = if b < i {
            b
        } else {
            b + 1
        };
        assert(s[a] == pre[pa]);
        assert(s[b] == pre[pb]);
        assert(pre[pa].target != pre[pb].target);
    }
    assert forall|k: int| 0 <= k < s.len() implies {
        let r = #[trigger] s[k];
        r.installed && r.target != 0 && r.replacement != 0 && r.trampoline != 0
    } by {
        let pk: int = if k < i {
            k
        } else {
            k + 1
        };
        assert(s[k] == pre[pk]);
        assert(records_valid(pre));
        assert(pre[pk].installed && pre[pk].target != 0 && pre[pk].replacement != 0 && pre[
            pk
        ].trampoline != 0);
    }
    assert forall|a: int, b: int|
        0 <= a < s.len() && 0 <= b < s.len() implies (#[trigger] s[a]).trampoline != (
    #[trigger] s[b]).target by {
        let pa: int = if a < i {
            a
        } else {
            a + 1
        };
        let pb: int = if b < i {
            b
        } else {
            b + 1
        };
        assert(s[a] == pre[pa]);
        assert(s[b] == pre[pb]);
        assert(pre[pa].trampoline != pre[pb].target);
    }
}

/// Removing the record at `i` leaves dispatch on other addresses unchanged.
proof fn lemma_dispatch_after_remove(pre: Seq<HookRecord>, i: int, a: usize)
    requires
        0 <= i < pre.len(),
        targets_unique(pre),
        a != pre[i].target,
    ensures
        seq_dispatch(pre.remove(i), a) == seq_dispatch(pre, a),
{
    let s = pre.remove(i);
    if seq_hooked_at(pre, a) {
        let k = choose|k: int| 0 <= k < pre.len() && (#[trigger] pre[k]).target == a;
        assert(k != i);
        let sk: int = if k < i {
            k
        } else {
            k - 1
        };
        assert(s[sk] == pre[k]);
        assert(seq_hooked_at(s, a));
        let c = choose|c: int| 0 <= c < s.len() && (#[trigger] s[c]).target == a;
        let pc: int = if c < i {
            c
        } else {
            c + 1
        };
        assert(s[c] == pre[pc]);
        lemma_unique_record(pre, a, pc);
        lemma_unique_record(pre, a, k);
    } else {
        assert forall|k: int| 0 <= k < s.len() implies (#[trigger] s[k]).target != a by {
            let pk: int = if k < i {
                k
            } else {
                k + 1
            };
            assert(s[k] == pre[pk]);
            assert(!seq_hooked_at(pre, a));
        }
        assert(!seq_hooked_at(s, a));
    }
}

/// Install-and-invoke round trip: while a hook is installed on `target`,
/// every call through `target` lands in its replacement, the pre-hook
/// original stays reachable through the record's trampoline, and a call
/// through that trampoline is redirected nowhere: it reaches the saved
/// original code.
pub proof fn lemma_hook_round_trip(e: HookEngine, target: usize)
    requires
        e.wf(),
        e.spec_hooked_at(target),
    ensures
        e.spec_dispatch(target) == e.spec_record_of(target).replacement,
        e.spec_original_entry(target) == e.spec_record_of(target).trampoline,
        e.spec_dispatch(e.spec_record_of(target).trampoline) == e.spec_record_of(
            target,
        ).trampoline,
{
    let s = e.hooks@;
    let c = choose|k: int| 0 <= k < s.len() && (#[trigger] s[k]).target == target;
    let tr = s[c].trampoline;
    assert forall|k: int| 0 <= k < s.len() implies (#[trigger] s[k]).target != tr by {
        assert(s[c].trampoline != s[k].target);
    }
    assert(!seq_hooked_at(s, tr));
}

} // verus!
