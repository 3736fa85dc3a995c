use vstd::prelude::*;

use crate::config::Library;

verus! {

/// Failures of the build pipeline. Every one of them ends the run.
#[derive(Debug, Clone, Copy, PartialEq, Eq, Structural)]
pub enum BuildError {
    /// The host SDK or compiler could not be discovered.
    ToolLookupError,
    /// The architecture is not legal for the requested platform.
    UnsupportedArchitecture,
    /// The platform is not handled by the requested toolchain family.
    UnsupportedPlatform,
    /// The machine running the build has no prebuilt cross toolchain.
    HostPlatformUnsupported,
    /// A cross toolchain root lacks one of its expected subdirectories.
    ToolchainNotFound,
    /// The named dependency has not been installed yet.
    DependencyNotBuilt(Library),
    /// `configure` exited with a failure.
    ConfigureFailed,
    /// `make` exited with a failure.
    BuildFailed,
    /// `make install` exited with a failure.
    InstallFailed,
    /// The library's options carry no version.
    VersionNotSpecified,
    /// The configuration has no options for the library.
    LibraryConfigMissing,
}

} // verus!
