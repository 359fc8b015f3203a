//! The working directory of a task, kept inside the project root.
use vstd::prelude::*;

use crate::error::Error;
use crate::path::{is_within, join, join_path, within};
use crate::tasks::TaskConfig;

verus! {

/// What the file system says of a requested directory.
#[derive(Debug, Clone)]
pub enum DirProbe {
    /// Nothing exists at the path.
    Missing,
    /// The path exists; this is its canonical form (symlinks and `..` resolved).
    Canonical(String),
    /// The path exists but could not be canonicalized, for this reason.
    Unresolvable(String),
}

/// The directory a task asks for, relative to `cwd`; `None` runs it in `cwd`.
pub fn requested_dir(task: &TaskConfig, cwd: &str) -> (r: Option<String>)
    ensures
        match task.dir {
            None => r is None,
            Some(dir) => r is Some && r->0@ == join_path(cwd@, dir@),
        },
{
    match &task.dir {
        None => None,
        Some(dir) => Some(join(cwd, dir.as_str())),
    }
}

/// The outcome of checking the requested directory `resolved`, found as
/// `probe`, against the canonical project root `root`.
pub open spec fn sandbox_outcome(
    r: Result<String, Error>,
    resolved: Seq<char>,
    probe: DirProbe,
    root: Seq<char>,
) -> bool {
    match probe {
        DirProbe::Missing => match r {
            Err(Error::DirectoryNotFound(p)) => p@ == resolved,
            _ => false,
        },
        DirProbe::Unresolvable(reason) => match r {
            Err(Error::DirectoryUnresolvable(p, why)) => p@ == resolved && why@ == reason@,
            _ => false,
        },
        DirProbe::Canonical(c) => if within(c@, root) {
            r is Ok && r->Ok_0@ == c@
        } else {
            match r {
                Err(Error::DirectoryOutsideRoot(p)) => p@ == resolved,
                _ => false,
            }
        },
    }
}

/// Accepts the requested directory `resolved` only if it exists and its
/// canonical path lies within the canonical project root `root`; the
/// result is that canonical path.
pub fn validate_directory(resolved: &str, probe: &DirProbe, root: &str) -> (r: Result<String, Error>)
    ensures
        sandbox_outcome(r, resolved@, *probe, root@),
{
    match probe {
        DirProbe::Missing => Err(Error::DirectoryNotFound(resolved.to_owned())),
        DirProbe::Unresolvable(reason) => Err(
            Error::DirectoryUnresolvable(resolved.to_owned(), reason.clone()),
        ),
        DirProbe::Canonical(c) => {
            if is_within(c.as_str(), root) {
                Ok(c.clone())
            } else {
                Err(Error::DirectoryOutsideRoot(resolved.to_owned()))
            }
        },
    }
}

} // verus!
