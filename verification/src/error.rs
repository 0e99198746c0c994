//! The error taxonomy of the snapshot engine.

use vstd::prelude::*;

verus! {

/// Every failure the engine surfaces to a caller.
///
/// There is no recoverable error class: each of these aborts the operation
/// that raised it, and the embedding application maps it to an exit code.
#[derive(Debug)]
pub enum Error {
    /// The snapshot manifest exists but could not be parsed; holds the
    /// parser's message.
    TomlError(String),
    /// The source directory lacks the files written at initialization time.
    MissingBasicInitialization,
    /// A file-system operation failed; holds the underlying message.
    IOError(String),
    /// The requested snapshot id is not present under the registry root.
    SnapshotDontExist,
}

impl Error {
    /// The user-visible message for this error.
    pub fn message(&self) -> (r: String)
        ensures
            r@ == match self {
                Error::TomlError(m) => m@,
                Error::MissingBasicInitialization => "Missing setuprs init files, please run setuprs init"@,
                Error::IOError(m) => m@,
                Error::SnapshotDontExist => "Provided snapshot don't exist"@,
            },
    {
        match self {
            Error::TomlError(m) => m.clone(),
            Error::MissingBasicInitialization => "Missing setuprs init files, please run setuprs init".to_owned(),
            Error::IOError(m) => m.clone(),
            Error::SnapshotDontExist => "Provided snapshot don't exist".to_owned(),
        }
    }
}

} // verus!
