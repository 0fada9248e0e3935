//! The scaffold of a new migration directory: which files it holds, where
//! they go, and how the manifest template gets its version requirement.
//! Writing the files is the caller's part.

use vstd::prelude::*;
use vstd::string::StringExecFns;
use vstd::string::StrSliceExecFns;

verus! {

/// The templates of a migration directory.
#[derive(Clone, Copy, Debug, PartialEq, Eq, Structural)]
pub enum Template {
    /// The registry file.
    Registry,
    /// The first migration unit.
    Unit,
    /// The entry point of the migration runner.
    Runner,
    /// The manifest, in which the version marker is to be filled in.
    Manifest,
    /// The readme.
    Readme,
}

/// One file of the scaffold: where it goes and what it is made from.
pub struct ScaffoldFile {
    pub path: String,
    pub template: Template,
}

/// The file name of a template, relative to the migration directory.
pub open spec fn template_location(template: Template) -> Seq<char> {
    match template {
        Template::Registry => "src/lib.rs"@,
        Template::Unit => "src/m20220101_000001_create_table.rs"@,
        Template::Runner => "src/main.rs"@,
        Template::Manifest => "Cargo.toml"@,
        Template::Readme => "README.md"@,
    }
}

/// The templates in the order in which the scaffold is written.
pub open spec fn scaffold_order() -> Seq<Template> {
    seq![
        Template::Registry,
        Template::Unit,
        Template::Runner,
        Template::Manifest,
        Template::Readme,
    ]
}

/// The migration directory with a separator at its end.
pub open spec fn directory_prefix(migration_dir: Seq<char>) -> Seq<char> {
    if migration_dir.len() > 0 && migration_dir.last() == '/' {
        migration_dir
    } else {
        migration_dir + seq!['/']
    }
}

/// The marker in the manifest template that stands for the version
/// requirement.
pub open spec fn version_marker() -> Seq<char> {
    "<sea-orm-migration-version>"@
}

/// The requirement that admits every release of one minor version line.
pub open spec fn version_requirement(major: Seq<char>, minor: Seq<char>) -> Seq<char> {
    seq!['^'] + major + seq!['.'] + minor + ".0"@
}

/// `text` with every occurrence of `marker` replaced by `value`, taking
/// occurrences from the left and never overlapping; `text` itself for an
/// empty marker.
pub open spec fn substituted(text: Seq<char>, marker: Seq<char>, value: Seq<char>) -> Seq<char>
    decreases text.len(),
{
    if marker.len() == 0 || text.len() < marker.len() {
        text
    } else if text.take(marker.len() as int) == marker {
        value + substituted(text.skip(marker.len() as int), marker, value)
    } else {
        text.take(1) + substituted(text.skip(1), marker, value)
    }
}

/// The files of the scaffold of `migration_dir`, in the order in which they
/// are written.
pub fn run_migrate_init(migration_dir: &str) -> (files: Vec<ScaffoldFile>)
    ensures
        files.len() == scaffold_order().len(),
        forall|at: int|
            0 <= at < files.len() ==> (#[trigger] files[at]).template == scaffold_order()[at]
                && files[at].path@ == directory_prefix(migration_dir@) + template_location(
                scaffold_order()[at],
            ),
{
    proof {
        reveal_strlit("/");
    }
    let length: usize = migration_dir.unicode_len();
    let prefix = if length > 0 && migration_dir.get_char(length - 1) == '/' {
        String::from_str(migration_dir)
    } else {
        String::from_str(migration_dir).concat("/")
    };
    let mut files: Vec<ScaffoldFile> = Vec::new();
    files.push(ScaffoldFile { path: prefix.clone().concat("src/lib.rs"), template: Template::Registry });
    files.push(
        ScaffoldFile {
            path: prefix.clone().concat("src/m20220101_000001_create_table.rs"),
            template: Template::Unit,
        },
    );
    files.push(ScaffoldFile { path: prefix.clone().concat("src/main.rs"), template: Template::Runner });
    files.push(ScaffoldFile { path: prefix.clone().concat("Cargo.toml"), template: Template::Manifest });
    files.push(ScaffoldFile { path: prefix.concat("README.md"), template: Template::Readme });
    files
}

/// Past the last place where the marker could still fit, nothing is replaced.
proof fn lemma_substituted_short(text: Seq<char>, marker: Seq<char>, value: Seq<char>)
    requires
        0 < text.len() < marker.len(),
    ensures
        substituted(text, marker, value) == text.take(1) + substituted(text.skip(1), marker, value),
{
    assert(text.take(1) + text.skip(1) == text);
}

/// Replaces every occurrence of `marker` in `text` by `value`.
pub fn substitute(text: &str, marker: &str, value: &str) -> (filled: String)
    ensures
        filled@ == substituted(text@, marker@, value@),
{
    let length: usize = text.unicode_len();
    let width: usize = marker.unicode_len();
    if width == 0 {
        return String::from_str(text);
    }
    let wanted = String::from_str(marker);
    let mut filled = String::new();
    let mut at: usize = 0;
    proof {
        assert(text@.skip(0) == text@);
    }
    while at < length
        invariant
            length == text@.len(),
            width == marker@.len(),
            width > 0,
            wanted@ == marker@,
            at <= length,
            filled@ + substituted(text@.skip(at as int), marker@, value@) == substituted(
                text@,
                marker@,
                value@,
            ),
        decreases length - at,
    {
        let ghost rest = text@.skip(at as int);
        let found = width <= length - at && String::from_str(text.substring_char(at, at + width))
            == wanted;
        if found {
            proof {
                assert(rest.take(width as int) == text@.subrange(at as int, at + width));
                assert(rest.skip(width as int) == text@.skip(at + width));
            }
            filled.append(value);
            at = at + width;
        } else {
            proof {
                if width <= length - at {
                    assert(rest.take(width as int) == text@.subrange(at as int, at + width));
                } else {
                    lemma_substituted_short(rest, marker@, value@);
                }
                assert(rest.take(1) == text@.subrange(at as int, at + 1));
                assert(rest.skip(1) == text@.skip(at + 1));
            }
            filled.append(text.substring_char(at, at + 1));
            at = at + 1;
        }
    }
    proof {
        assert(text@.skip(at as int) == Seq::<char>::empty());
    }
    filled
}

/// Fills the version requirement for the release line `major.minor` into
/// the manifest template.
pub fn fill_manifest(template: &str, major: &str, minor: &str) -> (manifest: String)
    ensures
        manifest@ == substituted(template@, version_marker(), version_requirement(major@, minor@)),
{
    proof {
        reveal_strlit("^");
        reveal_strlit(".");
    }
    let requirement = String::from_str("^").concat(major).concat(".").concat(minor).concat(".0");
    assert(requirement@ =~= version_requirement(major@, minor@));
    substitute(template, "<sea-orm-migration-version>", requirement.as_str())
}

} // verus!
