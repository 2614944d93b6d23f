//! The canonical in-memory shapes: the manifest, each lockfile ecosystem
//! and schema revision, and the classified errors.
//!
//! Mappings are association lists in document order: downstream lookups
//! treat the latest entry for a key as the one that counts, and manifest
//! iteration keeps the declared order.

use vstd::prelude::*;

verus! {

/// The package manager a lockfile belongs to.
#[derive(Debug, Clone, PartialEq, Eq, Structural)]
pub enum PackageManager {
    Npm,
    Yarn,
    Pnpm,
}

/// A located lockfile: its path and the manager that wrote it.
#[derive(Debug, Clone, PartialEq, Eq)]
pub struct LockFileResult {
    pub path: String,
    pub package_manager: PackageManager,
}

/// The manifest's three dependency mappings, each name to declared
/// version string, in declared order.  A mapping absent from the
/// document is an empty list.
#[derive(Debug, Clone, PartialEq, Eq)]
pub struct PackageJson {
    pub name: String,
    pub dependencies: Vec<(String, String)>,
    pub dev_dependencies: Vec<(String, String)>,
    pub optional_dependencies: Vec<(String, String)>,
}

/// An engine a lock entry may constrain.
#[derive(Debug, Clone, Copy, PartialEq, Eq, Structural)]
pub enum Engine {
    Node,
    Npm,
    Yarn,
}

/// One resolved lock entry: the exact version and, when modeled, its
/// engine constraints.
#[derive(Debug, Clone, PartialEq, Eq)]
pub struct LockDependency {
    pub version: String,
    pub engines: Option<Vec<(Engine, String)>>,
}

/// A mapping from engine to constraint range, in encounter order.
pub type ObjectEngines = Vec<(Engine, String)>;

/// Engine constraints as ecosystem A writes them: either a mapping from
/// engine to range, or a bare list of `"<engine> <range>"` strings.
#[derive(Debug, Clone, PartialEq, Eq)]
pub enum NpmLockEngines {
    Object(Vec<(Engine, String)>),
    Array(Vec<String>),
}

/// A lock entry holding its own exact version.
#[derive(Debug, Clone, PartialEq, Eq)]
pub struct VersionedDependency {
    pub version: String,
    pub engines: Option<NpmLockEngines>,
}

/// An aliasing record: no version of its own, an optional pointer to
/// another key in the same mapping, and the link flag.
#[derive(Debug, Clone, PartialEq, Eq)]
pub struct ResolvedDependency {
    pub resolved: Option<String>,
    pub link: bool,
    pub engines: Option<NpmLockEngines>,
}

/// A value of ecosystem A's mappings: an exact version or an alias.
#[derive(Debug, Clone, PartialEq, Eq)]
pub enum VersionedDependencyOrResolved {
    Versioned(VersionedDependency),
    Resolved(ResolvedDependency),
}

/// One of ecosystem A's raw mappings, in document order.
pub type NpmDependencies = Vec<(String, VersionedDependencyOrResolved)>;

/// The flat resolved mapping every ecosystem is normalized into.
pub type LockDependencies = Vec<(String, LockDependency)>;

/// Ecosystem A, revision 1: the flat name-keyed mapping alone.
#[derive(Debug, Clone, PartialEq, Eq)]
pub struct NpmLockVersion1 {
    pub lockfile_version: u8,
    pub dependencies: Vec<(String, VersionedDependencyOrResolved)>,
}

/// Ecosystem A, revision 2: the flat mapping plus the optional
/// path-keyed mapping.
#[derive(Debug, Clone, PartialEq, Eq)]
pub struct NpmLockVersion2 {
    pub lockfile_version: u8,
    pub packages: Option<Vec<(String, VersionedDependencyOrResolved)>>,
    pub dependencies: Vec<(String, VersionedDependencyOrResolved)>,
}

/// Ecosystem A, revision 3: the path-keyed mapping alone.
#[derive(Debug, Clone, PartialEq, Eq)]
pub struct NpmLockVersion3 {
    pub lockfile_version: u8,
    pub packages: Vec<(String, VersionedDependencyOrResolved)>,
}

/// Ecosystem A, tagged by its integer schema revision.
#[derive(Debug, Clone, PartialEq, Eq)]
pub enum NpmLock {
    Version1(NpmLockVersion1),
    Version2(NpmLockVersion2),
    Version3(NpmLockVersion3),
}

/// One entry of ecosystem B's mapping: the exact version, the optional
/// resolved location, and optional sub-dependencies.
#[derive(Debug, Clone, PartialEq, Eq)]
pub struct FirstLevelDependency {
    pub version: String,
    pub resolved: Option<String>,
    pub dependencies: Option<Vec<(String, String)>>,
}

/// Ecosystem B's v2 metadata lockfile: one flat composite-keyed mapping.
pub type YarnLockV2 = Vec<(String, FirstLevelDependency)>;

/// An importer record of ecosystem C's older revision: bare version
/// strings.
#[derive(Debug, Clone, PartialEq, Eq)]
pub struct PnpmImporterV5 {
    pub dependencies: Option<Vec<(String, String)>>,
    pub optional_dependencies: Option<Vec<(String, String)>>,
    pub dev_dependencies: Option<Vec<(String, String)>>,
}

/// Ecosystem C's older revision, keyed by importer path.
#[derive(Debug, Clone, PartialEq, Eq)]
pub struct PnpmLockV5 {
    pub lockfile_version: String,
    pub importers: Vec<(String, PnpmImporterV5)>,
}

/// An importer record of ecosystem C's newer revision: exact-version
/// records.
#[derive(Debug, Clone, PartialEq, Eq)]
pub struct PnpmImporterV6 {
    pub dependencies: Option<Vec<(String, LockDependency)>>,
    pub optional_dependencies: Option<Vec<(String, LockDependency)>>,
    pub dev_dependencies: Option<Vec<(String, LockDependency)>>,
}

/// Ecosystem C's newer revision, keyed by importer path.
#[derive(Debug, Clone, PartialEq, Eq)]
pub struct PnpmLockV6 {
    pub lockfile_version: String,
    pub importers: Vec<(String, PnpmImporterV6)>,
}

/// Ecosystem C, tagged by its string schema revision.
#[derive(Debug, Clone, PartialEq, Eq)]
pub enum PnpmLock {
    Version5(PnpmLockV5),
    Version6(PnpmLockV6),
}

/// Any parsed lockfile.
#[derive(Debug, Clone, PartialEq, Eq)]
pub enum PackageManagerLock {
    Npm(NpmLock),
    Yarn(YarnLockV2),
    Pnpm(PnpmLock),
}

/// Why a lockfile could not be parsed.  Structural failures are fatal
/// and classified; nothing here is a per-dependency condition.
#[derive(Debug, Clone, PartialEq, Eq, Structural)]
pub enum ParseError {
    /// The text is not valid JSON or YAML.
    Malformed,
    /// The document carries no `lockfileVersion` field.
    VersionFieldNotFound,
    /// The `lockfileVersion` field is neither a number nor a string of
    /// the expected kind.
    InvalidVersionField,
    /// The declared schema revision is not one this engine knows.
    UnsupportedVersion,
    /// The revision is known but the document does not fit its schema.
    InvalidStructure,
    /// Ecosystem B's legacy single-version format, recognized and
    /// refused.
    YarnClassicUnsupported,
    /// Ecosystem B content matching neither recognized marker.
    YarnUnknownFormat,
}

impl ParseError {
    /// A short human-readable description of the failure.
    pub fn message(&self) -> &'static str {
        match self {
            ParseError::Malformed => "malformed lockfile document",
            ParseError::VersionFieldNotFound => "lockfileVersion field not found",
            ParseError::InvalidVersionField => "invalid lockfileVersion type",
            ParseError::UnsupportedVersion => "unsupported lockfile version",
            ParseError::InvalidStructure => "lockfile does not match its schema",
            ParseError::YarnClassicUnsupported => "yarn lock v1 parsing is not implemented",
            ParseError::YarnUnknownFormat => "yarn lock file version parsing is not implemented",
        }
    }
}

/// Why a parsed lockfile could not be normalized into a resolved map.
#[derive(Debug, Clone, PartialEq, Eq, Structural)]
pub enum ResolveError {
    /// Ecosystem C: the importers mapping has no `"."` entry, so no
    /// resolution query can be answered.
    MissingRootImporter,
}

impl ResolveError {
    /// A short human-readable description of the failure.
    pub fn message(&self) -> &'static str {
        match self {
            ResolveError::MissingRootImporter => "no resolved dependencies for the project root",
        }
    }
}

} // verus!
