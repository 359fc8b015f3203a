//! A project-local task runner core: dependency ordering, working-directory
//! sandboxing, runtime version management and command construction.
use vstd::prelude::*;

pub mod env;
pub mod error;
pub mod fuzzy;
pub mod install;
pub mod managers;
pub mod path;
pub mod platform;
pub mod runner;
pub mod sandbox;
pub mod shell;
pub mod tasks;
pub mod text;
pub mod version;

pub use error::{get_error_code, ConfigValidationError, Error, VersionHint, VersionManagerError};
pub use install::{InstallStep, Installation, StepFailure};
pub use managers::{NodeVersionManager, PythonVersionManager, ShuruVersionManager};
pub use platform::os_type;
pub use runner::{TaskRun, TaskRunner};
pub use sandbox::DirProbe;
pub use shell::ShellType;
pub use tasks::{Config, TaskConfig};
pub use version::{VersionInfo, VersionedCommand};

verus! {

} // verus!
