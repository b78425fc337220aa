//! The named root directories and the identity of this system.

use vstd::prelude::*;

verus! {

/// A named anchor directory. The set is fixed.
#[derive(Clone, Copy, Debug, PartialEq, Eq, Structural)]
pub enum RootDir {
    WorkingDirectory,
    UserConfigRoot,
    UserDataRoot,
    UserEngineConfigurationRoot,
    UserLogRoot,
    UserSaveRoot,
}

/// The kind of engine system a component is.
#[derive(Clone, Copy, Debug, PartialEq, Eq, Structural)]
pub enum SystemType {
    Filesystem,
}

/// The platform a component was written for.
#[derive(Clone, Copy, Debug, PartialEq, Eq, Structural)]
pub enum PlatformType {
    Linux,
}

} // verus!
