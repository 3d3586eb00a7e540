use vstd::prelude::*;

verus! {

/// Why staging or orchestration stopped. Every variant is fatal to the
/// enclosing build: callers are expected to abort on any of them.
#[derive(Clone, Copy, PartialEq, Eq, Debug, Structural)]
pub enum BuildError {
    /// Staging was required (the directories differ) but no copy policy was
    /// ever configured.
    NoCopyPolicy,
    /// A resolved copy item was an absolute path.
    AbsoluteCopyItem,
    /// The external package-manager executable is absent from the search path.
    ToolNotFound,
    /// The target directory could not be created.
    CreateDirFailed,
    /// The project directory could not be listed.
    ListDirFailed,
    /// Removing a staged item's old entry at the target failed.
    RemoveFailed,
    /// Copying a staged item to the target failed.
    CopyFailed,
}

impl BuildError {
    /// The message a build script should abort with for this error.
    pub open spec fn spec_message(&self) -> Seq<char> {
        match self {
            BuildError::NoCopyPolicy => "Target directory selected but no items to copy there"@,
            BuildError::AbsoluteCopyItem => "Items to be copied cannot be absolute paths"@,
            BuildError::ToolNotFound => "Could not find npm installation"@,
            BuildError::CreateDirFailed => "Could not create target directory"@,
            BuildError::ListDirFailed => "Could not read project directory"@,
            BuildError::RemoveFailed => "Could not remove existing items from target directory"@,
            BuildError::CopyFailed => "Could not copy items to target directory"@,
        }
    }

    /// The message a build script should abort with for this error.
    pub fn message(&self) -> (r: &str)
        ensures
            r@ == self.spec_message(),
    {
        match self {
            BuildError::NoCopyPolicy => "Target directory selected but no items to copy there",
            BuildError::AbsoluteCopyItem => "Items to be copied cannot be absolute paths",
            BuildError::ToolNotFound => "Could not find npm installation",
            BuildError::CreateDirFailed => "Could not create target directory",
            BuildError::ListDirFailed => "Could not read project directory",
            BuildError::RemoveFailed => "Could not remove existing items from target directory",
            BuildError::CopyFailed => "Could not copy items to target directory",
        }
    }
}

} // verus!
