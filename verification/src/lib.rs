//! Runtime-acquisition and self-bootstrap core of a toolchain manager.
//!
//! Given a partial version request the library resolves a concrete build,
//! plans a secure download, verifies the integrity of the fetched bytes,
//! plans the extraction of the archive into a versioned install directory,
//! publishes redirect entrypoints ("shims"), and tracks an internal
//! tool-version marker so that the whole sequence is idempotent.
//!
//! All decisions are made here on plain values; the surrounding binary
//! performs the actual network and filesystem work.

use vstd::prelude::*;

pub mod archive;
pub mod bootstrap;
pub mod download;
pub mod envbuild;
pub mod gate;
pub mod integrity;
pub mod libcheck;
pub mod resolver;
pub mod shims;
pub mod text;
pub mod version;

verus! {

/// Output verbosity for the bootstrap pipeline.
#[derive(Clone, Copy, Debug, PartialEq, Eq, Structural)]
pub enum CommandOutput {
    Quiet,
    Normal,
    Verbose,
}

/// The sub-step of environment construction that failed.
#[derive(Clone, Copy, Debug, PartialEq, Eq, Structural)]
pub enum SetupStep {
    CreateEnv,
    UpgradeInstaller,
    InstallDeps,
}

/// Failures surfaced by the bootstrap core.
///
/// Every variant carries enough context for a caller to explain the
/// failure; none is retried automatically.
#[derive(Debug)]
pub enum BootstrapError {
    /// No known build matches the version request.
    UnknownVersion,
    /// The download URL does not use the secure transport scheme.
    InsecureUrl,
    /// Transport failure or a non-2xx response status.
    DownloadFailed { status: u32 },
    /// The digest of the downloaded bytes differs from the expected one.
    IntegrityMismatch { expected: String, actual: String },
    /// The archive could not be unpacked.
    ExtractionFailed,
    /// The installed binary needs shared libraries that are not present.
    MissingSharedLibraries { names: Vec<String> },
    /// A sub-step of environment construction exited with failure.
    EnvironmentSetupFailed { step: SetupStep },
    /// Every link strategy for a shim failed.
    ShimPublishFailed,
}

} // verus!
