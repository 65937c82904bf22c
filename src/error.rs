use crate::version::Version;
use vstd::prelude::*;

verus! {

/// Why a file could not be produced.
#[derive(Debug, PartialEq, Eq)]
pub enum FileError {
    /// No target path was chosen.
    NoPath,
    /// The file could not be created or written.
    Create,
}

/// Every failure that ends a command.
#[derive(Debug, PartialEq, Eq)]
pub enum DevtoolError {
    /// The build tool could not be launched to ask for its version.
    ToolNotFound,
    /// The build tool's version output holds no `major.minor.patch` triple.
    VersionUnparseable,
    /// The build tool is older than required.
    VersionTooOld { found: Version, minimum: Version },
    /// The build tool could not be started for the actual work.
    SpawnError,
    /// The target file could not be produced.
    File(FileError),
    /// The author's name could not be looked up.
    IdentityUnavailable,
    /// A template names a variable outside the render context, or leaves a
    /// placeholder open.
    RenderError,
}

impl DevtoolError {
    /// Every handled failure ends the process with code 1.
    pub fn exit_code(&self) -> (r: u8)
        ensures
            r == 1,
    {
        1
    }
}

} // verus!
