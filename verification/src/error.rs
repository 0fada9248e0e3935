//! How a synchronization of the registry can fail before anything is written.

use vstd::prelude::*;

verus! {

/// Why the registry does not have the shape that the rewrite relies on.
#[derive(Clone, Copy, Debug, PartialEq, Eq, Structural)]
pub enum StructureFault {
    /// No implementation of the migrator trait, or none with an enumeration
    /// function.
    NotFound,
    /// This many implementations of the migrator trait, more than one.
    Ambiguous(usize),
}

/// A failed synchronization. Each of these is reported before the document is
/// changed.
#[derive(Clone, Copy, Debug, PartialEq, Eq, Structural)]
pub enum SyncError {
    /// The registry is not valid source text.
    Parse,
    /// The new unit's name is not an identifier that can name a module.
    InvalidName,
    /// The registry parses but lacks the expected enumeration function.
    Structure(StructureFault),
    /// The regenerated enumeration is not an expression.
    Format,
}

} // verus!
