//! Where migration units and the registry file live, as text paths with `/` as
//! the separator. Whether a directory or file exists is probed by the caller
//! and handed in as a `bool`.

use vstd::prelude::*;
use vstd::string::StringExecFns;
use vstd::string::StrSliceExecFns;

verus! {

/// Name of the conventional subdirectory that holds the units of a migration crate.
pub open spec fn source_dir_name() -> Seq<char> {
    "src"@
}

/// Name of the registry file of a migration crate.
pub open spec fn crate_registry_name() -> Seq<char> {
    "lib.rs"@
}

/// Name of the registry file where the migrations are a module of another crate.
pub open spec fn module_registry_name() -> Seq<char> {
    "mod.rs"@
}

/// Extension of a unit file, dot included.
pub open spec fn unit_extension() -> Seq<char> {
    ".rs"@
}

/// Suffix appended to the registry path to name its backup.
pub open spec fn backup_suffix() -> Seq<char> {
    ".bak"@
}

/// `name` placed under `base`: an absolute `name` stands alone, otherwise one
/// separator sits between the two unless `base` is empty or already ends in one.
pub open spec fn joined(base: Seq<char>, name: Seq<char>) -> Seq<char> {
    if name.len() > 0 && name[0] == '/' {
        name
    } else if base.len() == 0 || base[base.len() - 1] == '/' {
        base + name
    } else {
        base + seq!['/'] + name
    }
}

/// The migrations source root: the `src` subdirectory where it exists, else
/// `migration_dir` itself.
pub open spec fn full_migration_dir(migration_dir: Seq<char>, src_is_dir: bool) -> Seq<char> {
    if src_is_dir {
        joined(migration_dir, source_dir_name())
    } else {
        migration_dir
    }
}

/// Path of the registry file under the migrations source root.
pub open spec fn migrator_filepath(
    migration_dir: Seq<char>,
    src_is_dir: bool,
    lib_is_file: bool,
) -> Seq<char> {
    joined(
        full_migration_dir(migration_dir, src_is_dir),
        if lib_is_file {
            crate_registry_name()
        } else {
            module_registry_name()
        },
    )
}

/// Path of the unit file of `migration_name` under the migrations source root.
pub open spec fn migration_filepath(
    migration_dir: Seq<char>,
    src_is_dir: bool,
    migration_name: Seq<char>,
) -> Seq<char> {
    joined(full_migration_dir(migration_dir, src_is_dir), migration_name + unit_extension())
}

/// Joins `name` onto `base`.
pub fn join(base: &str, name: &str) -> (path: String)
    ensures
        path@ == joined(base@, name@),
{
    proof {
        reveal_strlit("/");
    }
    let name_len: usize = name.unicode_len();
    if name_len > 0 && name.get_char(0) == '/' {
        return String::from_str(name);
    }
    let base_len: usize = base.unicode_len();
    let path = String::from_str(base);
    if base_len == 0 || base.get_char(base_len - 1) == '/' {
        path.concat(name)
    } else {
        path.concat("/").concat(name)
    }
}

/// The path that the caller probes to learn `src_is_dir`.
pub fn source_dir_candidate(migration_dir: &str) -> (path: String)
    ensures
        path@ == joined(migration_dir@, source_dir_name()),
{
    join(migration_dir, "src")
}

/// Resolves the migrations source root. `src_is_dir` says whether
/// `source_dir_candidate(migration_dir)` is an existing directory.
pub fn get_full_migration_dir(migration_dir: &str, src_is_dir: bool) -> (path: String)
    ensures
        path@ == full_migration_dir(migration_dir@, src_is_dir),
{
    if src_is_dir {
        join(migration_dir, "src")
    } else {
        String::from_str(migration_dir)
    }
}

/// The path that the caller probes to learn `lib_is_file`.
pub fn crate_registry_candidate(migration_dir: &str, src_is_dir: bool) -> (path: String)
    ensures
        path@ == migrator_filepath(migration_dir@, src_is_dir, true),
{
    let root = get_full_migration_dir(migration_dir, src_is_dir);
    join(root.as_str(), "lib.rs")
}

/// Resolves the registry file: `lib.rs` under the source root where that file
/// exists, else `mod.rs` there. `lib_is_file` says whether
/// `crate_registry_candidate(migration_dir, src_is_dir)` is an existing file.
pub fn get_migrator_filepath(migration_dir: &str, src_is_dir: bool, lib_is_file: bool) -> (path:
    String)
    ensures
        path@ == migrator_filepath(migration_dir@, src_is_dir, lib_is_file),
{
    let root = get_full_migration_dir(migration_dir, src_is_dir);
    if lib_is_file {
        join(root.as_str(), "lib.rs")
    } else {
        join(root.as_str(), "mod.rs")
    }
}

/// Path of the unit file for `migration_name`.
pub fn get_migration_filepath(migration_dir: &str, src_is_dir: bool, migration_name: &str) -> (path:
    String)
    ensures
        path@ == migration_filepath(migration_dir@, src_is_dir, migration_name@),
{
    let root = get_full_migration_dir(migration_dir, src_is_dir);
    let file_name = String::from_str(migration_name).concat(".rs");
    join(root.as_str(), file_name.as_str())
}

/// Path of the backup written before the registry file is replaced.
pub fn get_backup_filepath(registry_path: &str) -> (path: String)
    ensures
        path@ == registry_path@ + backup_suffix(),
{
    String::from_str(registry_path).concat(".bak")
}

/// Unit files and the registry file are resolved against one and the same
/// source root, whatever the probes found.
pub proof fn lemma_unit_and_registry_share_root(
    migration_dir: Seq<char>,
    src_is_dir: bool,
    lib_is_file: bool,
    migration_name: Seq<char>,
)
    ensures
        migrator_filepath(migration_dir, src_is_dir, lib_is_file) == joined(
            full_migration_dir(migration_dir, src_is_dir),
            if lib_is_file {
                crate_registry_name()
            } else {
                module_registry_name()
            },
        ),
        migration_filepath(migration_dir, src_is_dir, migration_name) == joined(
            full_migration_dir(migration_dir, src_is_dir),
            migration_name + unit_extension(),
        ),
{
}

} // verus!
