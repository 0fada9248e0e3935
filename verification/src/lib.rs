//! Keeps a migration registry file in step with the migration units beside it:
//! identifiers that sort by creation time, the directory rule that places units
//! and registry, and the rewrite that declares a new unit and regenerates the
//! registry's enumeration.

pub mod command;
pub mod document;
pub mod error;
pub mod identifier;
pub mod outline;
pub mod paths;
pub mod pattern;
pub mod rewrite;
pub mod scaffold;
pub mod syntax;
