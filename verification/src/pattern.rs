//! Which module names denote migration units.
//!
//! The decision is the `regex` crate's: a name denotes a unit where the fixed
//! pattern is found anywhere in it. What the engine finds is named, not
//! restated, so everything said here about unit names is said relative to it.

use vstd::prelude::*;

verus! {

/// `regex::Regex`, a compiled pattern.
#[verifier::external_type_specification]
#[verifier::external_body]
pub struct ExRegex(regex::Regex);

/// `regex::Error`, the error of compiling a pattern.
#[verifier::external_type_specification]
#[verifier::external_body]
pub struct ExRegexError(regex::Error);

/// The text a compiled pattern was made from, as `regex::Regex::as_str` gives it.
pub uninterp spec fn pattern_source(engine: regex::Regex) -> Seq<char>;

/// Whether `regex::Regex::new` accepts a pattern.
pub uninterp spec fn pattern_compiles(pattern: Seq<char>) -> bool;

/// Whether `regex::Regex::is_match` finds the pattern anywhere in the haystack.
pub uninterp spec fn pattern_found(pattern: Seq<char>, haystack: Seq<char>) -> bool;

/// The pattern of a unit name: `m`, eight digits, six digits and a word,
/// joined by underscores.
pub open spec fn migration_pattern() -> Seq<char> {
    "(?P<name>m\\d{8}_\\d{6}_\\w+)"@
}

/// `name` denotes a migration unit.
pub open spec fn is_migration_name(name: Seq<char>) -> bool {
    pattern_found(migration_pattern(), name)
}

/// Calls `regex::Regex::new`. It succeeds exactly on the patterns named as
/// compiling, and the engine it returns was made from the pattern given.
#[verifier::external_body]
fn compile(pattern: &str) -> (compiled: Result<regex::Regex, regex::Error>)
    ensures
        match compiled {
            Ok(engine) => pattern_compiles(pattern@) && pattern_source(engine) == pattern@,
            Err(_) => !pattern_compiles(pattern@),
        },
{
    regex::Regex::new(pattern)
}

/// Calls `regex::Regex::is_match`: whether the engine's pattern is found
/// anywhere in the haystack.
#[verifier::external_body]
fn search(engine: &regex::Regex, haystack: &str) -> (found: bool)
    ensures
        found == pattern_found(pattern_source(*engine), haystack@),
{
    engine.is_match(haystack)
}

/// The compiled pattern of unit names.
pub struct MigrationPattern {
    engine: regex::Regex,
}

impl MigrationPattern {
    #[verifier::type_invariant]
    spec fn from_fixed_pattern(&self) -> bool {
        pattern_source(self.engine) == migration_pattern()
    }

    /// Compiles the pattern of unit names; `None` where the engine refuses it.
    pub fn new() -> (compiled: Option<MigrationPattern>)
        ensures
            compiled.is_some() == pattern_compiles(migration_pattern()),
    {
        match compile("(?P<name>m\\d{8}_\\d{6}_\\w+)") {
            Ok(engine) => Some(MigrationPattern { engine }),
            Err(_) => None,
        }
    }

    /// Whether `name` denotes a migration unit.
    pub fn is_match(&self, name: &str) -> (found: bool)
        ensures
            found == is_migration_name(name@),
    {
        proof {
            use_type_invariant(self);
        }
        search(&self.engine, name)
    }
}

} // verus!
