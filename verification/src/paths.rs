//! Path and base-directory rules of the bootstrap.
//!
//! The base directory is resolvable either from a process argument of the
//! form `--melonloader.basedir=<path>` or from the cached external-storage
//! path established at attach time. Everything else is fixed layout under it
//! or under the package's internal data directory.

use vstd::prelude::*;
use vstd::string::{StrSliceExecFns, StringExecFns};
use crate::detector::RuntimeVariant;
use crate::errors::{BootstrapError, EnvArtifact};
use crate::strutil::{find_char, spec_find_char, spec_starts_with, str_starts_with};

verus! {

/// The process argument prefix that overrides the base directory.
pub open spec fn basedir_arg_prefix() -> Seq<char> {
    "--melonloader.basedir"@
}

/// The value a single argument contributes: for an argument that starts with
/// the prefix and contains `=`, the text between the first `=` and the next
/// `=` (or the end); any other argument contributes nothing.
pub open spec fn spec_basedir_arg_value(arg: Seq<char>) -> Option<Seq<char>> {
    if spec_starts_with(arg, basedir_arg_prefix()) {
        match spec_find_char(arg, '=', 0) {
            None => None,
            Some(i) => match spec_find_char(arg, '=', i + 1) {
                None => Some(arg.subrange(i + 1, arg.len() as int)),
                Some(j) => Some(arg.subrange(i + 1, j)),
            },
        }
    } else {
        None
    }
}

/// Extracts the base-directory override carried by one process argument.
pub fn basedir_arg_value(arg: &str) -> (r: Option<String>)
    ensures
        match r {
            Some(v) => spec_basedir_arg_value(arg@) == Some(v@),
            None => spec_basedir_arg_value(arg@) is None,
        },
{
    if !str_starts_with(arg, "--melonloader.basedir") {
        return None;
    }
    let len = arg.unicode_len();
    match find_char(arg, '=', 0) {
        None => None,
        Some(i) => {
            let end = match find_char(arg, '=', i + 1) {
                None => len,
                Some(j) => j,
            };
            Some(arg.substring_char(i + 1, end).to_owned())
        },
    }
}

/// The base directory the argument list selects: the override of the last
/// argument that carries one, or the fallback.
pub open spec fn spec_base_dir(args: Seq<Seq<char>>, fallback: Seq<char>) -> Seq<char>
    decreases args.len(),
{
    if args.len() == 0 {
        fallback
    } else {
        match spec_basedir_arg_value(args.last()) {
            Some(v) => v,
            None => spec_base_dir(args.drop_last(), fallback),
        }
    }
}

/// Resolves the base directory from the process arguments, falling back to
/// the cached data directory: the last `--melonloader.basedir=<path>`
/// argument wins.
pub fn base_dir_from_args(args: &Vec<String>, fallback: &str) -> (r: String)
    ensures
        r@ == spec_base_dir(args@.map_values(|a: String| a@), fallback@),
{
    let ghost views = args@.map_values(|a: String| a@);
    let mut chosen: String = fallback.to_owned();
    let n = args.len();
    let mut i: usize = 0;
    while i < n
        invariant
            n == args@.len(),
            i <= n,
            views == args@.map_values(|a: String| a@),
            chosen@ == spec_base_dir(views.take(i as int), fallback@),
        decreases n - i,
    {
        proof {
            assert(views.take(i + 1).last() == views[i as int]);
            assert(views.take(i + 1).drop_last() =~= views.take(i as int));
        }
        match basedir_arg_value(args[i].as_str()) {
            Some(v) => {
                chosen = v;
            },
            None => {
            },
        }
        i += 1;
    }
    proof {
        assert(views.take(n as int) =~= views);
    }
    chosen
}

/// Joins two path components with the platform separator.
pub fn path_join(base: &str, child: &str) -> (r: String)
    ensures
        r@ == base@ + "/"@ + child@,
{
    let s = base.to_owned().concat("/").concat(child);
    proof {
        assert(s@ =~= base@ + "/"@ + child@);
    }
    s
}

/// The loader's folder under the base directory.
pub fn melonloader_folder(base_dir: &str) -> (r: String)
    ensures
        r@ == base_dir@ + "/"@ + "MelonLoader"@,
{
    path_join(base_dir, "MelonLoader")
}

/// The managed-runtime support directory for a variant.
pub open spec fn spec_runtime_dir(variant: RuntimeVariant, base_dir: Seq<char>) -> Seq<char> {
    base_dir + "/"@ + "MelonLoader"@ + "/"@ + (match variant {
        RuntimeVariant::Mono => "net35"@,
        RuntimeVariant::Il2Cpp => "net8"@,
    })
}

/// Where the loader's managed runtime support lives for the detected variant.
pub fn runtime_dir(variant: RuntimeVariant, base_dir: &str) -> (r: String)
    ensures
        r@ == spec_runtime_dir(variant, base_dir@),
{
    let folder = melonloader_folder(base_dir);
    let r = match variant {
        RuntimeVariant::Mono => path_join(folder.as_str(), "net35"),
        RuntimeVariant::Il2Cpp => path_join(folder.as_str(), "net8"),
    };
    proof {
        assert(r@ =~= spec_runtime_dir(variant, base_dir@));
    }
    r
}

/// The package's internal data directory on the mobile platform.
pub fn get_internal_data_path(package_name: &str) -> (r: String)
    ensures
        r@ == "/data/data/"@ + package_name@,
{
    let s = "/data/data/".to_owned().concat(package_name);
    s
}

/// Where the managed runtime's own installation lives for a package.
pub fn get_dotnet_path(package_name: &str) -> (r: String)
    ensures
        r@ == "/data/data/"@ + package_name@ + "/"@ + "dotnet"@,
{
    let base = get_internal_data_path(package_name);
    let r = path_join(base.as_str(), "dotnet");
    proof {
        assert(r@ =~= "/data/data/"@ + package_name@ + "/"@ + "dotnet"@);
    }
    r
}

/// The cached package name, established once at attach time. Reading it
/// before it was cached is the fatal environment error for the package name.
pub fn get_package_name(cache: &Option<String>) -> (r: Result<String, BootstrapError>)
    ensures
        match r {
            Ok(name) => cache matches Some(c) && name@ == c@,
            Err(e) => cache is None && e == BootstrapError::Environment(EnvArtifact::PackageName),
        },
{
    match cache {
        Some(c) => Ok(c.clone()),
        None => Err(BootstrapError::Environment(EnvArtifact::PackageName)),
    }
}

/// The cached data directory, established once at attach time. Reading it
/// before it was cached is the fatal environment error for the data
/// directory.
pub fn current_dir(cache: &Option<String>) -> (r: Result<String, BootstrapError>)
    ensures
        match r {
            Ok(dir) => cache matches Some(c) && dir@ == c@,
            Err(e) => cache is None && e == BootstrapError::Environment(EnvArtifact::DataDirectory),
        },
{
    match cache {
        Some(c) => Ok(c.clone()),
        None => Err(BootstrapError::Environment(EnvArtifact::DataDirectory)),
    }
}

/// The primary managed-directory candidate, next to the executable.
pub open spec fn spec_primary_managed_dir(exe_dir: Seq<char>, exe_stem: Seq<char>) -> Seq<char> {
    exe_dir + "/"@ + exe_stem + "_Data"@ + "/"@ + "Managed"@
}

/// The fallback managed-directory candidate, under the loader's folder.
pub open spec fn spec_fallback_managed_dir(exe_dir: Seq<char>) -> Seq<char> {
    exe_dir + "/"@ + "MelonLoader"@ + "/"@ + "Managed"@
}

/// Picks the game's managed-assembly directory: the `<stem>_Data/Managed`
/// directory next to the executable where it exists, else the loader's own
/// `MelonLoader/Managed`, else the fatal environment error. The existence
/// flags are the caller's probes of the two candidate paths, in that order.
pub fn get_managed_dir(
    exe_dir: &str,
    exe_stem: &str,
    primary_exists: bool,
    fallback_exists: bool,
) -> (r: Result<String, BootstrapError>)
    ensures
        match r {
            Ok(d) => (primary_exists && d@ == spec_primary_managed_dir(exe_dir@, exe_stem@)) || (
            !primary_exists && fallback_exists && d@ == spec_fallback_managed_dir(exe_dir@)),
            Err(e) => !primary_exists && !fallback_exists && e == BootstrapError::Environment(
                EnvArtifact::ManagedDirectory,
            ),
        },
{
    if primary_exists {
        let data_name = exe_stem.to_owned().concat("_Data");
        let d = path_join(path_join(exe_dir, data_name.as_str()).as_str(), "Managed");
        proof {
            assert(d@ =~= spec_primary_managed_dir(exe_dir@, exe_stem@));
        }
        Ok(d)
    } else if fallback_exists {
        let d = path_join(path_join(exe_dir, "MelonLoader").as_str(), "Managed");
        proof {
            assert(d@ =~= spec_fallback_managed_dir(exe_dir@));
        }
        Ok(d)
    } else {
        Err(BootstrapError::Environment(EnvArtifact::ManagedDirectory))
    }
}

} // verus!
