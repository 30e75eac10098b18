//! The Internal Call Registry: binds native function addresses to
//! managed-visible qualified names inside the attached runtime, so managed
//! code can invoke them directly, independently of the Import/Export Table
//! handshake.
//!
//! Registration happens once, at process attach, before any managed code that
//! references the names runs. A name collision is fatal: two different native
//! addresses behind one managed name would make every managed call ambiguous.

use vstd::prelude::*;
use crate::errors::BootstrapError;
use crate::symbols::{spec_lookup, SymbolEntry, SymbolTable};

verus! {

/// The internal-call table: managed-visible names bound to native addresses.
pub struct Registry {
    pub table: SymbolTable,
}

/// Looking a name up in a table extended by one binding: an existing binding
/// wins (lookup returns the first match), otherwise the new binding answers
/// for its own name and nothing else changed.
proof fn lemma_lookup_after_push(s: Seq<SymbolEntry>, e: SymbolEntry, n: Seq<char>)
    ensures
        spec_lookup(s.push(e), n) == {
            if spec_lookup(s, n) is Some {
                spec_lookup(s, n)
            } else if e.name@ == n {
                Some(e.addr)
            } else {
                None
            }
        },
    decreases s.len(),
{
    let t = s.push(e);
    if s.len() == 0 {
        assert(t.len() == 1);
        assert(t[0] == e);
        assert(t.drop_first() =~= Seq::<SymbolEntry>::empty());
        assert(spec_lookup(s, n) is None);
        if e.name@ == n {
            assert(spec_lookup(t, n) == Some(e.addr));
        } else {
            assert(spec_lookup(t, n) == spec_lookup(t.drop_first(), n));
            assert(spec_lookup(t.drop_first(), n) is None);
        }
    } else {
        assert(t[0] == s[0]);
        assert(t.drop_first() =~= s.drop_first().push(e));
        lemma_lookup_after_push(s.drop_first(), e, n);
        if s[0].name@ == n {
            assert(spec_lookup(t, n) == Some(s[0].addr));
            assert(spec_lookup(s, n) == Some(s[0].addr));
        } else {
            assert(spec_lookup(t, n) == spec_lookup(t.drop_first(), n));
            assert(spec_lookup(s, n) == spec_lookup(s.drop_first(), n));
        }
    }
}

impl Registry {
    /// The address bound to a managed-visible name, if any.
    pub open spec fn spec_get(self, name: Seq<char>) -> Option<usize> {
        self.table.spec_get(name)
    }

    pub fn new() -> (r: Registry)
        ensures
            r.table.entries@.len() == 0,
            forall|n: Seq<char>| r.spec_get(n) is None,
    {
        let t = SymbolTable::new();
        proof {
            assert forall|n: Seq<char>| spec_lookup(t.entries@, n) is None by {}
        }
        Registry { table: t }
    }

    /// Binds one native address to one managed-visible name. Rejected with
    /// the fatal collision error where the name is already bound; otherwise
    /// the new binding answers for its name and every other name is unchanged.
    pub fn register(&mut self, name: String, addr: usize) -> (r: Result<(), BootstrapError>)
        ensures
            match r {
                Ok(()) => old(self).spec_get(name@) is None && final(self).spec_get(name@)
                    == Some(addr) && (forall|n: Seq<char>|
                    n != name@ ==> final(self).spec_get(n) == old(self).spec_get(n)),
                Err(e) => e == BootstrapError::NameCollision && old(self).spec_get(name@) is Some
                    && *final(self) == *old(self),
            },
    {
        if self.table.get_export_ptr(name.as_str()).is_some() {
            return Err(BootstrapError::NameCollision);
        }
        let ghost pre = self.table.entries@;
        let ghost n0 = name@;
        let ghost a0 = addr;
        self.table.insert(name, addr);
        proof {
            let last = self.table.entries@[self.table.entries@.len() - 1];
            assert(last.name@ == n0 && last.addr == a0);
            assert forall|n: Seq<char>| true implies spec_lookup(self.table.entries@, n) == {
                if spec_lookup(pre, n) is Some {
                    spec_lookup(pre, n)
                } else if n0 == n {
                    Some(a0)
                } else {
                    None
                }
            } by {
                lemma_lookup_after_push(pre, last, n);
            }
        }
        Ok(())
    }
}

/// The native addresses exposed to managed code through the registry: small,
/// frequently called primitives, bound once at attach time.
#[derive(Clone, Copy, Debug, PartialEq, Eq, Structural)]
pub struct IcallAddrs {
    pub is_32_bit: usize,
    pub hook_attach: usize,
    pub hook_detach: usize,
    pub log_console: usize,
    pub get_java_vm: usize,
    pub get_package_name: usize,
    pub get_lib_ptr: usize,
    pub cast_assembly_ptr: usize,
    pub get_domain_ptr: usize,
    pub install_hooks: usize,
    pub get_managed_dir: usize,
}

/// The eleven managed-visible names are pairwise distinct, so one
/// registration pass can never collide with itself.
proof fn lemma_icall_names_distinct()
    ensures
        "MelonLoader.MelonUtils::IsGame32Bit"@ != "MelonLoader.BootstrapInterop::NativeHookAttach"@,
        "MelonLoader.MelonUtils::IsGame32Bit"@ != "MelonLoader.BootstrapInterop::NativeHookDetach"@,
        "MelonLoader.MelonUtils::IsGame32Bit"@ != "MelonLoader.BootstrapInterop::NativeLogConsole"@,
        "MelonLoader.MelonUtils::IsGame32Bit"@ != "MelonLoader.BootstrapInterop::NativeGetJavaVM"@,
        "MelonLoader.MelonUtils::IsGame32Bit"@ != "MelonLoader.BootstrapInterop::NativeGetPackageName"@,
        "MelonLoader.MelonUtils::IsGame32Bit"@ != "MelonLoader.MonoInternals.MonoLibrary::GetLibPtr"@,
        "MelonLoader.MelonUtils::IsGame32Bit"@ != "MelonLoader.MonoInternals.MonoLibrary::CastManagedAssemblyPtr"@,
        "MelonLoader.MelonUtils::IsGame32Bit"@ != "MelonLoader.MonoInternals.MonoLibrary::GetRootDomainPtr"@,
        "MelonLoader.MelonUtils::IsGame32Bit"@ != "MelonLoader.MonoInternals.ResolveInternals.AssemblyManager::InstallHooks"@,
        "MelonLoader.MelonUtils::IsGame32Bit"@ != "MelonLoader.Support.Preload::GetManagedDirectory"@,
        "MelonLoader.BootstrapInterop::NativeHookAttach"@ != "MelonLoader.BootstrapInterop::NativeHookDetach"@,
        "MelonLoader.BootstrapInterop::NativeHookAttach"@ != "MelonLoader.BootstrapInterop::NativeLogConsole"@,
        "MelonLoader.BootstrapInterop::NativeHookAttach"@ != "MelonLoader.BootstrapInterop::NativeGetJavaVM"@,
        "MelonLoader.BootstrapInterop::NativeHookAttach"@ != "MelonLoader.BootstrapInterop::NativeGetPackageName"@,
        "MelonLoader.BootstrapInterop::NativeHookAttach"@ != "MelonLoader.MonoInternals.MonoLibrary::GetLibPtr"@,
        "MelonLoader.BootstrapInterop::NativeHookAttach"@ != "MelonLoader.MonoInternals.MonoLibrary::CastManagedAssemblyPtr"@,
        "MelonLoader.BootstrapInterop::NativeHookAttach"@ != "MelonLoader.MonoInternals.MonoLibrary::GetRootDomainPtr"@,
        "MelonLoader.BootstrapInterop::NativeHookAttach"@ != "MelonLoader.MonoInternals.ResolveInternals.AssemblyManager::InstallHooks"@,
        "MelonLoader.BootstrapInterop::NativeHookAttach"@ != "MelonLoader.Support.Preload::GetManagedDirectory"@,
        "MelonLoader.BootstrapInterop::NativeHookDetach"@ != "MelonLoader.BootstrapInterop::NativeLogConsole"@,
        "MelonLoader.BootstrapInterop::NativeHookDetach"@ != "MelonLoader.BootstrapInterop::NativeGetJavaVM"@,
        "MelonLoader.BootstrapInterop::NativeHookDetach"@ != "MelonLoader.BootstrapInterop::NativeGetPackageName"@,
        "MelonLoader.BootstrapInterop::NativeHookDetach"@ != "MelonLoader.MonoInternals.MonoLibrary::GetLibPtr"@,
        "MelonLoader.BootstrapInterop::NativeHookDetach"@ != "MelonLoader.MonoInternals.MonoLibrary::CastManagedAssemblyPtr"@,
        "MelonLoader.BootstrapInterop::NativeHookDetach"@ != "MelonLoader.MonoInternals.MonoLibrary::GetRootDomainPtr"@,
        "MelonLoader.BootstrapInterop::NativeHookDetach"@ != "MelonLoader.MonoInternals.ResolveInternals.AssemblyManager::InstallHooks"@,
        "MelonLoader.BootstrapInterop::NativeHookDetach"@ != "MelonLoader.Support.Preload::GetManagedDirectory"@,
        "MelonLoader.BootstrapInterop::NativeLogConsole"@ != "MelonLoader.BootstrapInterop::NativeGetJavaVM"@,
        "MelonLoader.BootstrapInterop::NativeLogConsole"@ != "MelonLoader.BootstrapInterop::NativeGetPackageName"@,
        "MelonLoader.BootstrapInterop::NativeLogConsole"@ != "MelonLoader.MonoInternals.MonoLibrary::GetLibPtr"@,
        "MelonLoader.BootstrapInterop::NativeLogConsole"@ != "MelonLoader.MonoInternals.MonoLibrary::CastManagedAssemblyPtr"@,
        "MelonLoader.BootstrapInterop::NativeLogConsole"@ != "MelonLoader.MonoInternals.MonoLibrary::GetRootDomainPtr"@,
        "MelonLoader.BootstrapInterop::NativeLogConsole"@ != "MelonLoader.MonoInternals.ResolveInternals.AssemblyManager::InstallHooks"@,
        "MelonLoader.BootstrapInterop::NativeLogConsole"@ != "MelonLoader.Support.Preload::GetManagedDirectory"@,
        "MelonLoader.BootstrapInterop::NativeGetJavaVM"@ != "MelonLoader.BootstrapInterop::NativeGetPackageName"@,
        "MelonLoader.BootstrapInterop::NativeGetJavaVM"@ != "MelonLoader.MonoInternals.MonoLibrary::GetLibPtr"@,
        "MelonLoader.BootstrapInterop::NativeGetJavaVM"@ != "MelonLoader.MonoInternals.MonoLibrary::CastManagedAssemblyPtr"@,
        "MelonLoader.BootstrapInterop::NativeGetJavaVM"@ != "MelonLoader.MonoInternals.MonoLibrary::GetRootDomainPtr"@,
        "MelonLoader.BootstrapInterop::NativeGetJavaVM"@ != "MelonLoader.MonoInternals.ResolveInternals.AssemblyManager::InstallHooks"@,
        "MelonLoader.BootstrapInterop::NativeGetJavaVM"@ != "MelonLoader.Support.Preload::GetManagedDirectory"@,
        "MelonLoader.BootstrapInterop::NativeGetPackageName"@ != "MelonLoader.MonoInternals.MonoLibrary::GetLibPtr"@,
        "MelonLoader.BootstrapInterop::NativeGetPackageName"@ != "MelonLoader.MonoInternals.MonoLibrary::CastManagedAssemblyPtr"@,
        "MelonLoader.BootstrapInterop::NativeGetPackageName"@ != "MelonLoader.MonoInternals.MonoLibrary::GetRootDomainPtr"@,
        "MelonLoader.BootstrapInterop::NativeGetPackageName"@ != "MelonLoader.MonoInternals.ResolveInternals.AssemblyManager::InstallHooks"@,
        "MelonLoader.BootstrapInterop::NativeGetPackageName"@ != "MelonLoader.Support.Preload::GetManagedDirectory"@,
        "MelonLoader.MonoInternals.MonoLibrary::GetLibPtr"@ != "MelonLoader.MonoInternals.MonoLibrary::CastManagedAssemblyPtr"@,
        "MelonLoader.MonoInternals.MonoLibrary::GetLibPtr"@ != "MelonLoader.MonoInternals.MonoLibrary::GetRootDomainPtr"@,
        "MelonLoader.MonoInternals.MonoLibrary::GetLibPtr"@ != "MelonLoader.MonoInternals.ResolveInternals.AssemblyManager::InstallHooks"@,
        "MelonLoader.MonoInternals.MonoLibrary::GetLibPtr"@ != "MelonLoader.Support.Preload::GetManagedDirectory"@,
        "MelonLoader.MonoInternals.MonoLibrary::CastManagedAssemblyPtr"@ != "MelonLoader.MonoInternals.MonoLibrary::GetRootDomainPtr"@,
        "MelonLoader.MonoInternals.MonoLibrary::CastManagedAssemblyPtr"@ != "MelonLoader.MonoInternals.ResolveInternals.AssemblyManager::InstallHooks"@,
        "MelonLoader.MonoInternals.MonoLibrary::CastManagedAssemblyPtr"@ != "MelonLoader.Support.Preload::GetManagedDirectory"@,
        "MelonLoader.MonoInternals.MonoLibrary::GetRootDomainPtr"@ != "MelonLoader.MonoInternals.ResolveInternals.AssemblyManager::InstallHooks"@,
        "MelonLoader.MonoInternals.MonoLibrary::GetRootDomainPtr"@ != "MelonLoader.Support.Preload::GetManagedDirectory"@,
        "MelonLoader.MonoInternals.ResolveInternals.AssemblyManager::InstallHooks"@ != "MelonLoader.Support.Preload::GetManagedDirectory"@,
{
    reveal_strlit("MelonLoader.MelonUtils::IsGame32Bit");
    reveal_strlit("MelonLoader.BootstrapInterop::NativeHookAttach");
    reveal_strlit("MelonLoader.BootstrapInterop::NativeHookDetach");
    reveal_strlit("MelonLoader.BootstrapInterop::NativeLogConsole");
    reveal_strlit("MelonLoader.BootstrapInterop::NativeGetJavaVM");
    reveal_strlit("MelonLoader.BootstrapInterop::NativeGetPackageName");
    reveal_strlit("MelonLoader.MonoInternals.MonoLibrary::GetLibPtr");
    reveal_strlit("MelonLoader.MonoInternals.MonoLibrary::CastManagedAssemblyPtr");
    reveal_strlit("MelonLoader.MonoInternals.MonoLibrary::GetRootDomainPtr");
    reveal_strlit("MelonLoader.MonoInternals.ResolveInternals.AssemblyManager::InstallHooks");
    reveal_strlit("MelonLoader.Support.Preload::GetManagedDirectory");
    assert("MelonLoader.MelonUtils::IsGame32Bit"@.len() == 35);
    assert("MelonLoader.BootstrapInterop::NativeHookAttach"@.len() == 46);
    assert("MelonLoader.BootstrapInterop::NativeHookDetach"@.len() == 46);
    assert("MelonLoader.BootstrapInterop::NativeLogConsole"@.len() == 46);
    assert("MelonLoader.BootstrapInterop::NativeGetJavaVM"@.len() == 45);
    assert("MelonLoader.BootstrapInterop::NativeGetPackageName"@.len() == 50);
    assert("MelonLoader.MonoInternals.MonoLibrary::GetLibPtr"@.len() == 48);
    assert("MelonLoader.MonoInternals.MonoLibrary::CastManagedAssemblyPtr"@.len() == 61);
    assert("MelonLoader.MonoInternals.MonoLibrary::GetRootDomainPtr"@.len() == 55);
    assert("MelonLoader.MonoInternals.ResolveInternals.AssemblyManager::InstallHooks"@.len() == 72);
    assert("MelonLoader.Support.Preload::GetManagedDirectory"@.len() == 48);
    assert("MelonLoader.BootstrapInterop::NativeHookAttach"@[40] != "MelonLoader.BootstrapInterop::NativeHookDetach"@[40]);
    assert("MelonLoader.BootstrapInterop::NativeHookAttach"@[36] != "MelonLoader.BootstrapInterop::NativeLogConsole"@[36]);
    assert("MelonLoader.BootstrapInterop::NativeHookDetach"@[36] != "MelonLoader.BootstrapInterop::NativeLogConsole"@[36]);
    assert("MelonLoader.MonoInternals.MonoLibrary::GetLibPtr"@[12] != "MelonLoader.Support.Preload::GetManagedDirectory"@[12]);
}

/// Registers the fixed internal-call surface under its well-known qualified
/// names. On success every one of the names is bound to its address; any
/// collision (a name already taken in the attached runtime's table) is the
/// fatal registry error.
pub fn init(reg: &mut Registry, addrs: &IcallAddrs) -> (r: Result<(), BootstrapError>)
    ensures
        r is Ok ==> {
            &&& final(reg).spec_get("MelonLoader.MelonUtils::IsGame32Bit"@) == Some(addrs.is_32_bit)
            &&& final(reg).spec_get("MelonLoader.BootstrapInterop::NativeHookAttach"@) == Some(
                addrs.hook_attach,
            )
            &&& final(reg).spec_get("MelonLoader.BootstrapInterop::NativeHookDetach"@) == Some(
                addrs.hook_detach,
            )
            &&& final(reg).spec_get("MelonLoader.BootstrapInterop::NativeLogConsole"@) == Some(
                addrs.log_console,
            )
            &&& final(reg).spec_get("MelonLoader.BootstrapInterop::NativeGetJavaVM"@) == Some(
                addrs.get_java_vm,
            )
            &&& final(reg).spec_get("MelonLoader.BootstrapInterop::NativeGetPackageName"@) == Some(
                addrs.get_package_name,
            )
            &&& final(reg).spec_get("MelonLoader.MonoInternals.MonoLibrary::GetLibPtr"@) == Some(
                addrs.get_lib_ptr,
            )
            &&& final(reg).spec_get(
                "MelonLoader.MonoInternals.MonoLibrary::CastManagedAssemblyPtr"@,
            ) == Some(addrs.cast_assembly_ptr)
            &&& final(reg).spec_get("MelonLoader.MonoInternals.MonoLibrary::GetRootDomainPtr"@)
                == Some(addrs.get_domain_ptr)
            &&& final(reg).spec_get(
                "MelonLoader.MonoInternals.ResolveInternals.AssemblyManager::InstallHooks"@,
            ) == Some(addrs.install_hooks)
            &&& final(reg).spec_get("MelonLoader.Support.Preload::GetManagedDirectory"@) == Some(
                addrs.get_managed_dir,
            )
        },
        r is Err ==> r == Err::<(), BootstrapError>(BootstrapError::NameCollision) && (exists|n:
            Seq<char>| old(reg).spec_get(n) is Some),
        old(reg).table.entries@.len() == 0 ==> r is Ok,
{
    proof {
        lemma_icall_names_distinct();
    }
    reg.register("MelonLoader.MelonUtils::IsGame32Bit".to_owned(), addrs.is_32_bit)?;
    reg.register("MelonLoader.BootstrapInterop::NativeHookAttach".to_owned(), addrs.hook_attach)?;
    reg.register("MelonLoader.BootstrapInterop::NativeHookDetach".to_owned(), addrs.hook_detach)?;
    reg.register("MelonLoader.BootstrapInterop::NativeLogConsole".to_owned(), addrs.log_console)?;
    reg.register("MelonLoader.BootstrapInterop::NativeGetJavaVM".to_owned(), addrs.get_java_vm)?;
    reg.register(
        "MelonLoader.BootstrapInterop::NativeGetPackageName".to_owned(),
        addrs.get_package_name,
    )?;
    reg.register("MelonLoader.MonoInternals.MonoLibrary::GetLibPtr".to_owned(), addrs.get_lib_ptr)?;
    reg.register(
        "MelonLoader.MonoInternals.MonoLibrary::CastManagedAssemblyPtr".to_owned(),
        addrs.cast_assembly_ptr,
    )?;
    reg.register(
        "MelonLoader.MonoInternals.MonoLibrary::GetRootDomainPtr".to_owned(),
        addrs.get_domain_ptr,
    )?;
    reg.register(
        "MelonLoader.MonoInternals.ResolveInternals.AssemblyManager::InstallHooks".to_owned(),
        addrs.install_hooks,
    )?;
    reg.register(
        "MelonLoader.Support.Preload::GetManagedDirectory".to_owned(),
        addrs.get_managed_dir,
    )?;
    Ok(())
}

} // verus!
