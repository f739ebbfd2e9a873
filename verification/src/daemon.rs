//! The daemon-facing model: configuration values, the package manifest
//! shapes, and the build task submitted to the sandbox.
//!
//! Loading configuration, parsing manifests and walking the store are I/O and
//! live outside the library; the value shapes, the stable hash of a lock
//! definition, and the input checks of a build task are here.

use vstd::prelude::*;

use vstd::utf8::encode_utf8;

use crate::hashing::spec_be_bytes_64;
use crate::hashing::StableHash;
use crate::hashing::StableHasher;
use crate::hashing::StableHasherExt;
use crate::hashing::spec_iter_bytes;
use crate::hashing::SupportedHash;
use crate::process::IntoExitCode;

verus! {

/// Where the daemon listens: a Unix socket path and any TCP binds.
#[derive(Debug, Clone, PartialEq, Eq)]
pub struct BindConfig {
    pub socket: String,
    pub tcp: Vec<String>,
}

/// Where the package store lives.
#[derive(Debug, Clone, PartialEq, Eq)]
pub struct StoreConfig {
    pub path: String,
}

/// The daemon's configuration.
#[derive(Debug, Clone, PartialEq, Eq)]
pub struct Config {
    pub bind: BindConfig,
    pub store: StoreConfig,
}

/// The store path used when none is configured.
pub fn default_store_path() -> (r: String)
    ensures
        r@ == "/var/lib/porkg/store"@,
{
    "/var/lib/porkg/store".to_owned()
}

/// The socket path used when none is configured: under the runtime directory
/// when the service manager provides one, else a fixed path.
pub fn default_socket_path(runtime_dir: Option<&str>) -> (r: String)
    ensures
        match runtime_dir {
            Some(dir) => r@ == dir@ + "/porkg.sock"@,
            None => r@ == "/var/lib/porkg/porkg.sock"@,
        },
{
    match runtime_dir {
        Some(dir) => {
            let mut path = dir.to_owned();
            path.append("/porkg.sock");
            path
        },
        None => "/var/lib/porkg/porkg.sock".to_owned(),
    }
}

impl Default for StoreConfig {
    /// The default store location.
    fn default() -> (r: Self)
        ensures
            r.path@ == "/var/lib/porkg/store"@,
    {
        StoreConfig { path: default_store_path() }
    }
}

/// Whether an accept-loop error means one broken connection — to be skipped —
/// rather than a broken listener: a refused, aborted or reset connection.
pub fn is_connection_error(errno: i32) -> (r: bool)
    ensures
        r == (errno == 111 || errno == 103 || errno == 104),
{
    errno == 111 || errno == 103 || errno == 104
}

/// A package manifest.
#[derive(Debug, Clone, PartialEq, Eq)]
pub struct Package {
    pub package: Metadata,
    pub dependencies: Vec<(String, Dependency)>,
    pub build_dependencies: Vec<(String, Dependency)>,
}

/// A package's own description.
#[derive(Debug, Clone, PartialEq, Eq)]
pub struct Metadata {
    pub name: String,
    pub version: String,
    pub description: Option<String>,
    pub compatibility: Option<Compatibility>,
    pub targets: Vec<String>,
}

/// A three-part compatibility version.
#[derive(Debug, Clone, Copy, PartialEq, Eq)]
pub struct Compatibility(pub [u64; 3]);

/// One declared dependency.
#[derive(Debug, Clone, PartialEq, Eq)]
pub struct Dependency {
    pub name: String,
    pub version: String,
    pub target: String,
}

/// Something the package runs: the command line and its environment.
#[derive(Debug, Clone, PartialEq, Eq)]
pub struct Executable {
    pub command: Vec<String>,
    pub env: Vec<(String, String)>,
}

/// The resolved dependencies a build is locked to, in name order.
#[derive(Debug, Clone, PartialEq, Eq)]
pub struct LockDefinition {
    pub dependencies: Vec<(String, String)>,
    pub build_dependencies: Vec<(String, String)>,
}

impl StableHash for String {
    /// The length as a 64-bit word, then the UTF-8 bytes.
    open spec fn stable_bytes(&self) -> Seq<u8> {
        spec_be_bytes_64(encode_utf8(self@).len() as u64) + encode_utf8(self@)
    }

    fn update<H: StableHasher>(&self, h: &mut H)
        ensures
            final(h).absorbed() == old(h).absorbed() + self.stable_bytes(),
    {
        let bytes = self.as_str().as_bytes();
        let n = bytes.len();
        n.update(h);
        h.update(bytes);
        proof {
            assert(old(h).absorbed() + spec_be_bytes_64(encode_utf8(self@).len() as u64)
                + encode_utf8(self@) =~= old(h).absorbed() + (spec_be_bytes_64(
                encode_utf8(self@).len() as u64,
            ) + encode_utf8(self@)));
        }
    }
}

impl<T1: StableHash, T2: StableHash> StableHash for (T1, T2) {
    /// The first value's bytes, then the second's.
    open spec fn stable_bytes(&self) -> Seq<u8> {
        self.0.stable_bytes() + self.1.stable_bytes()
    }

    fn update<H: StableHasher>(&self, h: &mut H)
        ensures
            final(h).absorbed() == old(h).absorbed() + self.stable_bytes(),
    {
        self.0.update(h);
        self.1.update(h);
        proof {
            assert(old(h).absorbed() + self.0.stable_bytes() + self.1.stable_bytes() =~= old(
                h,
            ).absorbed() + (self.0.stable_bytes() + self.1.stable_bytes()));
        }
    }
}

impl StableHash for LockDefinition {
    /// The dependency pairs as a run, then the build-dependency pairs.
    open spec fn stable_bytes(&self) -> Seq<u8> {
        spec_iter_bytes(self.dependencies@) + spec_iter_bytes(self.build_dependencies@)
    }

    fn update<H: StableHasher>(&self, h: &mut H)
        ensures
            final(h).absorbed() == old(h).absorbed() + self.stable_bytes(),
    {
        h.update_iter(self.dependencies.as_slice());
        h.update_iter(self.build_dependencies.as_slice());
        proof {
            assert(old(h).absorbed() + spec_iter_bytes(self.dependencies@) + spec_iter_bytes(
                self.build_dependencies@,
            ) =~= old(h).absorbed() + (spec_iter_bytes(self.dependencies@) + spec_iter_bytes(
                self.build_dependencies@,
            )));
        }
    }
}

/// Why a build task could not be made or run.
#[derive(Debug, Clone, PartialEq, Eq)]
pub enum BuildError {
    /// The package's source directory is not in the store.
    SourceDirectoryNotFound,
    /// The package manifest is not in the source directory.
    PorkgTomlNotFound,
    /// A locked dependency is not in the store.
    DependencyNotFound { name: String, hash: SupportedHash },
    /// A locked build dependency is not in the store.
    BuildDependencyNotFound { name: String, hash: SupportedHash },
    /// The worker's async runtime could not start.
    TokioFailed,
    /// The package manifest did not parse.
    InvalidManfest,
}

impl IntoExitCode for BuildError {
    /// Every build failure exits with code one.
    open spec fn spec_report(&self) -> i32 {
        1
    }

    fn report(&self) -> (r: i32)
        ensures
            r == self.spec_report(),
    {
        1
    }
}

/// A task that builds one package inside the sandbox.
#[derive(Debug, Clone, PartialEq, Eq)]
pub struct BuildTask {
    pub store_path: String,
    pub name: String,
    pub hash: SupportedHash,
    pub dependencies: Vec<(String, SupportedHash)>,
    pub build_dependencies: Vec<(String, SupportedHash)>,
}

/// The checks a build task's inputs must pass, in the order they are made:
/// the source directory exists, the manifest exists, every dependency and
/// every build dependency is in the store. The first failing check names the
/// error; the outside walks the store and reports what is missing.
pub fn check_build_inputs(
    src_exists: bool,
    manifest_exists: bool,
    missing_dependency: Option<(String, SupportedHash)>,
    missing_build_dependency: Option<(String, SupportedHash)>,
) -> (r: Result<(), BuildError>)
    ensures
        !src_exists ==> r == Err::<(), BuildError>(BuildError::SourceDirectoryNotFound),
        src_exists && !manifest_exists ==> r == Err::<(), BuildError>(
            BuildError::PorkgTomlNotFound,
        ),
        src_exists && manifest_exists ==> match missing_dependency {
            Some((name, hash)) => r == Err::<(), BuildError>(
                BuildError::DependencyNotFound { name, hash },
            ),
            None => match missing_build_dependency {
                Some((name, hash)) => r == Err::<(), BuildError>(
                    BuildError::BuildDependencyNotFound { name, hash },
                ),
                None => r == Ok::<(), BuildError>(()),
            },
        },
{
    if !src_exists {
        return Err(BuildError::SourceDirectoryNotFound);
    }
    if !manifest_exists {
        return Err(BuildError::PorkgTomlNotFound);
    }
    if let Some((name, hash)) = missing_dependency {
        return Err(BuildError::DependencyNotFound { name, hash });
    }
    if let Some((name, hash)) = missing_build_dependency {
        return Err(BuildError::BuildDependencyNotFound { name, hash });
    }
    Ok(())
}

/// An opaque failure of the daemon itself.
#[derive(Debug, Clone, Copy, PartialEq, Eq, Structural)]
pub struct Erro;

impl IntoExitCode for Erro {
    /// Reports failure.
    open spec fn spec_report(&self) -> i32 {
        -1i32
    }

    fn report(&self) -> (r: i32)
        ensures
            r == self.spec_report(),
    {
        -1
    }
}

/// An error carried to the web layer; the embedding application decides its
/// status and body.
#[derive(Debug, Clone, PartialEq, Eq)]
pub struct AppError<T>(pub T);

impl<T> AppError<T> {
    /// Wraps an error.
    pub fn new(value: T) -> (r: Self)
        ensures
            r.0 == value,
    {
        AppError(value)
    }
}

} // verus!
