//! Error taxonomy of the engine and the process exit code of each kind.
use vstd::prelude::*;

use crate::version::VersionedCommand;

verus! {

/// A task declaration that cannot be used as written.
#[derive(Debug, Clone, PartialEq, Eq)]
pub enum ConfigValidationError {
    EmptyCommandError(String),
    EmptyDirError(String),
}

/// Why a version string was rejected, one hint per shape of mistake.
#[derive(Debug, Clone, Copy, PartialEq, Eq, Structural)]
pub enum VersionHint {
    /// A Node version lacks its leading `v`.
    MissingPrefix,
    /// Only a major component was given.
    MissingMinorAndPatch,
    /// Major and minor were given, the patch is missing.
    MissingPatch,
    /// Any other count of components.
    UseMajorMinorPatch,
    /// A component holds something other than digits.
    NonNumeric,
}

/// Failures of validating, locating, downloading and building a runtime.
#[derive(Debug, Clone, PartialEq, Eq)]
pub enum VersionManagerError {
    InvalidVersion { runtime: VersionedCommand, version: String, hint: VersionHint },
    UnsupportedOs(String),
    UnableHomeDirectory,
    DownloadError { url: String, source: String },
    FailedDownloadPackage { package: String, url: String, status: String },
    FailedCreateFile { file: String, source: String },
    FailedWriteFile { file: String, source: String },
    FailedDeleteFile { file: String, source: String },
    FailedExtractArchive { file: String, target: String, error: String },
    FailedRunCommand { command: String, source: String },
    FailedPackageBuildCommand { package: String, status: i32, error: String },
}

/// Every failure the engine reports to its caller.
#[derive(Debug, Clone, PartialEq, Eq)]
pub enum Error {
    ConfigLoadError(String),
    ConfigValidationError(ConfigValidationError),
    ConfigFileNotFound,
    CommandExecutionError(String),
    DefaultCommandNotFound,
    CommandNotFound(String),
    CommandNotFoundWithSuggestions(String, String),
    /// Two tasks share this name.
    DuplicateTask(String),
    /// A task reached itself again through its `depends` chain.
    CyclicDependency(String),
    /// The working directory a task asked for does not exist.
    DirectoryNotFound(String),
    /// The working directory a task asked for lies outside the project root.
    DirectoryOutsideRoot(String),
    /// The working directory could not be resolved to a canonical path.
    DirectoryUnresolvable(String, String),
    VersionManagerError(VersionManagerError),
    IoError(String),
    HomeDirectoryNotFound,
    CacheClearError(String, String),
}

pub const EXIT_CONFIG_ERROR: i32 = 166;

pub const EXIT_CONFIG_FILE_NOT_FOUND: i32 = 167;

pub const EXIT_CONFIG_LOAD_ERROR: i32 = 168;

pub const EXIT_COMMAND_ERROR: i32 = 170;

pub const EXIT_COMMAND_NOT_FOUND: i32 = 171;

pub const EXIT_VERSION_MANAGER_ERROR: i32 = 175;

pub const EXIT_NO_DEFAULT_COMMAND_FOUND: i32 = 180;

/// The exit code of each kind of error: one small range per bucket.
pub open spec fn error_code_of(e: Error) -> i32 {
    match e {
        Error::ConfigLoadError(_) => EXIT_CONFIG_LOAD_ERROR,
        Error::ConfigValidationError(_) => EXIT_CONFIG_ERROR,
        Error::CyclicDependency(_) => EXIT_CONFIG_ERROR,
        Error::DuplicateTask(_) => EXIT_CONFIG_ERROR,
        Error::ConfigFileNotFound => EXIT_CONFIG_FILE_NOT_FOUND,
        Error::CommandExecutionError(_) => EXIT_COMMAND_ERROR,
        Error::DirectoryNotFound(_) => EXIT_COMMAND_ERROR,
        Error::DirectoryOutsideRoot(_) => EXIT_COMMAND_ERROR,
        Error::DirectoryUnresolvable(_, _) => EXIT_COMMAND_ERROR,
        Error::CommandNotFound(_) => EXIT_COMMAND_NOT_FOUND,
        Error::CommandNotFoundWithSuggestions(_, _) => EXIT_COMMAND_NOT_FOUND,
        Error::VersionManagerError(_) => EXIT_VERSION_MANAGER_ERROR,
        Error::DefaultCommandNotFound => EXIT_NO_DEFAULT_COMMAND_FOUND,
        _ => 1,
    }
}

/// The process exit code for `error`.
pub fn get_error_code(error: &Error) -> (r: i32)
    ensures
        r == error_code_of(*error),
{
    match error {
        Error::ConfigLoadError(_) => EXIT_CONFIG_LOAD_ERROR,
        Error::ConfigValidationError(_) => EXIT_CONFIG_ERROR,
        Error::CyclicDependency(_) => EXIT_CONFIG_ERROR,
        Error::DuplicateTask(_) => EXIT_CONFIG_ERROR,
        Error::ConfigFileNotFound => EXIT_CONFIG_FILE_NOT_FOUND,
        Error::CommandExecutionError(_) => EXIT_COMMAND_ERROR,
        Error::DirectoryNotFound(_) => EXIT_COMMAND_ERROR,
        Error::DirectoryOutsideRoot(_) => EXIT_COMMAND_ERROR,
        Error::DirectoryUnresolvable(_, _) => EXIT_COMMAND_ERROR,
        Error::CommandNotFound(_) => EXIT_COMMAND_NOT_FOUND,
        Error::CommandNotFoundWithSuggestions(_, _) => EXIT_COMMAND_NOT_FOUND,
        Error::VersionManagerError(_) => EXIT_VERSION_MANAGER_ERROR,
        Error::DefaultCommandNotFound => EXIT_NO_DEFAULT_COMMAND_FOUND,
        _ => 1,
    }
}

} // verus!
