//! Error taxonomy of the document layer.

use vstd::prelude::*;
use vstd::string::{StringExecFns};
use crate::id::NanoID;

verus! {

/// The message surfaced when an operation referenced a scene identifier
/// absent from the package.
pub fn invalid_id_message(id: &NanoID) -> (m: String)
    ensures
        m@ == "Invalid Scene ID: "@ + id@,
{
    let mut m = String::from_str("Invalid Scene ID: ");
    m.append(id.token.as_str());
    m
}

/// A project source could not be turned into a package.
#[derive(Clone, Copy, PartialEq, Eq, Structural, Debug)]
pub enum LoadError {
    /// The source could not be read at all.
    Unreadable,
    /// The source was read but is not a valid package.
    Malformed,
}

/// The current package could not be persisted.
#[derive(Clone, Copy, PartialEq, Eq, Structural, Debug)]
pub enum SaveError {
    /// The destination cannot be written.
    Unwritable,
    /// The package could not be serialized.
    Serialization,
}

/// An offset import was aborted; the package is left untouched.
#[derive(Clone, Copy, PartialEq, Eq, Structural, Debug)]
pub enum ImportError {
    /// The offset source could not be read at all.
    Unreadable,
    /// The offset source was read but is not valid offset data.
    Malformed,
    /// An entry names a scene or stage absent from the package.
    UnknownTarget,
    /// An entry carries a different number of offsets than its stage has
    /// positions.
    LengthMismatch,
}

/// A command referenced an entity or an identifier it should not have.
#[derive(Clone, Copy, PartialEq, Eq, Structural, Debug)]
pub enum DocError {
    /// The operation referenced a scene or stage identifier absent from the
    /// package.
    InvalidId,
    /// Command dispatch received an identifier it does not know.
    UnrecognizedCommand,
}

} // verus!
