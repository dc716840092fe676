//! The conditions that end the process.

use vstd::prelude::*;
use vstd::string::*;

verus! {

/// A condition from which the watch loop cannot go on.
#[derive(Clone, Copy, Debug, PartialEq, Eq, Structural)]
pub enum FatalError {
    /// The target path has no parent: it is empty or names only the root.
    NoParentDirectory,
    /// The artifact path could not be converted into the viewer's namespace.
    PathConversionFailed,
}

impl FatalError {
    /// The diagnostic that goes with the error.
    pub open spec fn text(self) -> Seq<char> {
        match self {
            FatalError::NoParentDirectory => "Not a file but a directory was specified"@,
            FatalError::PathConversionFailed => "Failed to convert wsl path to windows path"@,
        }
    }

    /// The diagnostic to print before the process exits.
    pub fn message(&self) -> (r: String)
        ensures
            r@ == self.text(),
    {
        match self {
            FatalError::NoParentDirectory => "Not a file but a directory was specified".to_owned(),
            FatalError::PathConversionFailed => "Failed to convert wsl path to windows path".to_owned(),
        }
    }
}

} // verus!
