//! What a migrate subcommand asks for: scaffolding a migration directory,
//! generating a unit, or handing over to the migration runner with the
//! arguments built here. Carrying the request out is the caller's part.

use vstd::prelude::*;
use vstd::string::StringExecFns;
use vstd::string::StrSliceExecFns;
use crate::identifier::{decimal, digit, identifier_text, migration_identifier, Timestamp};
use crate::paths::{get_migration_filepath, migration_filepath};

verus! {

/// The subcommands of `migrate`.
#[derive(Debug, PartialEq, Eq)]
pub enum MigrateSubcommands {
    /// Initialize a migration directory.
    Init,
    /// Generate a new, empty migration.
    Generate { migration_name: String, universal_time: bool },
    /// Drop all tables, then reapply all migrations.
    Fresh,
    /// Roll back all applied migrations, then reapply all migrations.
    Refresh,
    /// Roll back all applied migrations.
    Reset,
    /// Check the status of all migrations.
    Status,
    /// Apply this many pending migrations.
    Up { num: u32 },
    /// Roll back this many applied migrations.
    Down { num: u32 },
}

/// What the caller is to do for a subcommand.
#[derive(Debug, PartialEq, Eq)]
pub enum MigrateAction {
    /// Write the scaffold of a migration directory.
    Init,
    /// Generate a unit and enter it into the registry.
    Generate { migration_name: String, universal_time: bool },
    /// Run `cargo` with these arguments.
    Run { args: Vec<String> },
}

/// The word by which the runner knows a subcommand; `up` where none is given.
pub open spec fn runner_subcommand(command: Option<MigrateSubcommands>) -> Seq<char> {
    match command {
        Some(MigrateSubcommands::Fresh) => "fresh"@,
        Some(MigrateSubcommands::Refresh) => "refresh"@,
        Some(MigrateSubcommands::Reset) => "reset"@,
        Some(MigrateSubcommands::Status) => "status"@,
        Some(MigrateSubcommands::Down { .. }) => "down"@,
        _ => "up"@,
    }
}

/// The number of steps that a subcommand carries.
pub open spec fn runner_steps(command: Option<MigrateSubcommands>) -> Option<u32> {
    match command {
        Some(MigrateSubcommands::Up { num }) => Some(num),
        Some(MigrateSubcommands::Down { num }) => Some(num),
        _ => None,
    }
}

/// The manifest of the migration crate in `migration_dir`.
pub open spec fn manifest_path(migration_dir: Seq<char>) -> Seq<char> {
    if migration_dir.len() > 0 && migration_dir.last() == '/' {
        migration_dir + "Cargo.toml"@
    } else {
        migration_dir + "/Cargo.toml"@
    }
}

/// The arguments with which `cargo` runs the migration runner: the manifest,
/// the subcommand, the number of steps where there is one, and `-v` where
/// asked for.
pub open spec fn runner_arguments(
    command: Option<MigrateSubcommands>,
    migration_dir: Seq<char>,
    verbose: bool,
) -> Seq<Seq<char>> {
    seq!["run"@, "--manifest-path"@, manifest_path(migration_dir), "--"@, runner_subcommand(command)]
        + match runner_steps(command) {
        Some(num) => seq!["-n"@, decimal(num as int)],
        None => Seq::empty(),
    } + if verbose {
        seq!["-v"@]
    } else {
        Seq::empty()
    }
}

/// One decimal digit as text.
fn digit_text(value: u32) -> (text: &'static str)
    requires
        value < 10,
    ensures
        text@ == seq![digit(value as int)],
{
    proof {
        reveal_strlit("0");
        reveal_strlit("1");
        reveal_strlit("2");
        reveal_strlit("3");
        reveal_strlit("4");
        reveal_strlit("5");
        reveal_strlit("6");
        reveal_strlit("7");
        reveal_strlit("8");
        reveal_strlit("9");
    }
    let text = if value == 0 {
        "0"
    } else if value == 1 {
        "1"
    } else if value == 2 {
        "2"
    } else if value == 3 {
        "3"
    } else if value == 4 {
        "4"
    } else if value == 5 {
        "5"
    } else if value == 6 {
        "6"
    } else if value == 7 {
        "7"
    } else if value == 8 {
        "8"
    } else {
        "9"
    };
    assert(text@ =~= seq![digit(value as int)]);
    text
}

/// A number in decimal.
pub fn decimal_text(value: u32) -> (text: String)
    ensures
        text@ == decimal(value as int),
    decreases value,
{
    if value < 10 {
        String::from_str(digit_text(value))
    } else {
        decimal_text(value / 10).concat(digit_text(value % 10))
    }
}

/// Builds the path of the manifest of the migration crate.
pub fn get_manifest_path(migration_dir: &str) -> (path: String)
    ensures
        path@ == manifest_path(migration_dir@),
{
    let length: usize = migration_dir.unicode_len();
    let path = String::from_str(migration_dir);
    if length > 0 && migration_dir.get_char(length - 1) == '/' {
        path.concat("Cargo.toml")
    } else {
        path.concat("/Cargo.toml")
    }
}

/// Decides what a subcommand asks for. `Init` and `Generate` are handed on
/// as they are; every other subcommand, and none at all, becomes a run of the
/// migration runner.
pub fn run_migrate_command(command: Option<MigrateSubcommands>, migration_dir: &str, verbose: bool) -> (action:
    MigrateAction)
    ensures
        match command {
            Some(MigrateSubcommands::Init) => action == MigrateAction::Init,
            Some(MigrateSubcommands::Generate { migration_name, universal_time }) => action == (
            MigrateAction::Generate { migration_name, universal_time }),
            _ => action is Run && action->args.deep_view() == runner_arguments(
                command,
                migration_dir@,
                verbose,
            ),
        },
{
    let (subcommand, steps): (&str, Option<u32>) = match command {
        Some(MigrateSubcommands::Init) => {
            return MigrateAction::Init;
        },
        Some(MigrateSubcommands::Generate { migration_name, universal_time }) => {
            return MigrateAction::Generate { migration_name, universal_time };
        },
        Some(MigrateSubcommands::Fresh) => ("fresh", None),
        Some(MigrateSubcommands::Refresh) => ("refresh", None),
        Some(MigrateSubcommands::Reset) => ("reset", None),
        Some(MigrateSubcommands::Status) => ("status", None),
        Some(MigrateSubcommands::Up { num }) => ("up", Some(num)),
        Some(MigrateSubcommands::Down { num }) => ("down", Some(num)),
        None => ("up", None),
    };
    let mut args: Vec<String> = Vec::new();
    args.push(String::from_str("run"));
    args.push(String::from_str("--manifest-path"));
    args.push(get_manifest_path(migration_dir));
    args.push(String::from_str("--"));
    args.push(String::from_str(subcommand));
    if let Some(num) = steps {
        args.push(String::from_str("-n"));
        args.push(decimal_text(num));
    }
    if verbose {
        args.push(String::from_str("-v"));
    }
    assert(args.deep_view() =~= runner_arguments(command, migration_dir@, verbose));
    MigrateAction::Run { args }
}

/// A unit to be generated: its identifier and the file that is to hold it.
#[derive(Debug, PartialEq, Eq)]
pub struct Generation {
    pub migration_name: String,
    pub migration_filepath: String,
}

/// Plans the generation of the unit called `migration_name` at the clock
/// reading `now`: names it and places its file under the migrations source
/// root. `src_is_dir` is the probe that `get_full_migration_dir` takes.
/// Gives `None` for a reading that is no valid date and time.
pub fn run_migrate_generate(
    migration_dir: &str,
    src_is_dir: bool,
    migration_name: &str,
    now: &Timestamp,
) -> (plan: Option<Generation>)
    ensures
        plan.is_some() == now.is_valid(),
        plan matches Some(unit) ==> {
            &&& unit.migration_name@ == identifier_text(migration_name@, *now)
            &&& unit.migration_filepath@ == migration_filepath(
                migration_dir@,
                src_is_dir,
                unit.migration_name@,
            )
        },
{
    if !now.check() {
        return None;
    }
    let identifier = migration_identifier(migration_name, now);
    let filepath = get_migration_filepath(migration_dir, src_is_dir, identifier.as_str());
    Some(Generation { migration_name: identifier, migration_filepath: filepath })
}

} // verus!
