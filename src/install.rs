//! The steps that make a pinned runtime available in the per-user cache, and
//! the state machine that walks them: the caller performs each step and
//! reports how it went; the machine decides what comes next.
use vstd::prelude::*;

use crate::error::{Error, VersionManagerError};
use crate::text::concat2;

verus! {

/// One unit of outside work in an installation.
#[derive(Debug, Clone)]
pub enum InstallStep {
    /// Create `path` and all of its missing parents.
    CreateDirAll { path: String },
    /// Fetch `url` into the file `dest`.
    Download { package: String, url: String, dest: String },
    /// Unpack the gzip-compressed tar archive `archive` into `target`.
    Extract { archive: String, target: String },
    /// Run `program` with `args` in `cwd`; with `capture` its output is kept
    /// and shown only on failure, otherwise it streams to the terminal.
    Build { package: String, program: String, args: Vec<String>, cwd: String, capture: bool },
    /// Delete the downloaded archive `path`.
    RemoveArchive { path: String },
}

/// The mathematical content of an [`InstallStep`].
pub enum StepSpec {
    CreateDirAll { path: Seq<char> },
    Download { package: Seq<char>, url: Seq<char>, dest: Seq<char> },
    Extract { archive: Seq<char>, target: Seq<char> },
    Build {
        package: Seq<char>,
        program: Seq<char>,
        args: Seq<Seq<char>>,
        cwd: Seq<char>,
        capture: bool,
    },
    RemoveArchive { path: Seq<char> },
}

/// The views of a sequence of strings.
pub open spec fn views(v: Seq<String>) -> Seq<Seq<char>> {
    v.map_values(|s: String| s@)
}

impl View for InstallStep {
    type V = StepSpec;

    open spec fn view(&self) -> StepSpec {
        match self {
            InstallStep::CreateDirAll { path } => StepSpec::CreateDirAll { path: path@ },
            InstallStep::Download { package, url, dest } => StepSpec::Download {
                package: package@,
                url: url@,
                dest: dest@,
            },
            InstallStep::Extract { archive, target } => StepSpec::Extract {
                archive: archive@,
                target: target@,
            },
            InstallStep::Build { package, program, args, cwd, capture } => StepSpec::Build {
                package: package@,
                program: program@,
                args: views(args@),
                cwd: cwd@,
                capture: *capture,
            },
            InstallStep::RemoveArchive { path } => StepSpec::RemoveArchive { path: path@ },
        }
    }
}

/// How a step failed, as the caller observed it.
#[derive(Debug, Clone)]
pub enum StepFailure {
    /// The step could not be carried out (a file-system error, a transport
    /// error of a download, a program that could not be started).
    Failed(String),
    /// A download was answered with a non-success status.
    Status(String),
    /// The file to download into could not be created.
    CreateFile(String),
    /// The downloaded body could not be written.
    Write(String),
    /// A program ran and exited unsuccessfully.
    Exit { code: i32, stderr: String },
}

/// The message carried by a failure.
pub open spec fn failure_text(f: StepFailure) -> Seq<char> {
    match f {
        StepFailure::Failed(m) => m@,
        StepFailure::Status(s) => s@,
        StepFailure::CreateFile(m) => m@,
        StepFailure::Write(m) => m@,
        StepFailure::Exit { stderr, .. } => stderr@,
    }
}

/// The text that names a program run: the program and its arguments,
/// separated by spaces.
pub open spec fn command_text(program: Seq<char>, args: Seq<Seq<char>>) -> Seq<char>
    decreases args.len(),
{
    if args.len() == 0 {
        program
    } else {
        command_text(program, args.drop_last()) + " "@ + args.last()
    }
}

/// The version-manager error inside `e`, if it is one.
pub open spec fn manager_error(e: Error) -> Option<VersionManagerError> {
    match e {
        Error::VersionManagerError(v) => Some(v),
        _ => None,
    }
}

/// `e` is the error that reports failure `f` of `step`.
pub open spec fn is_step_error(e: Error, step: StepSpec, f: StepFailure) -> bool {
    let text = failure_text(f);
    match step {
        StepSpec::CreateDirAll { .. } => match e {
            Error::IoError(m) => m@ == text,
            _ => false,
        },
        StepSpec::Download { package, url, dest } => match manager_error(e) {
            Some(VersionManagerError::FailedDownloadPackage { package: p, url: u, status: s }) => {
                f is Status && p@ == package && u@ == url && s@ == text
            },
            Some(VersionManagerError::FailedCreateFile { file, source }) => f is CreateFile && file@
                == dest && source@ == text,
            Some(VersionManagerError::FailedWriteFile { file, source }) => f is Write && file@
                == dest && source@ == text,
            Some(VersionManagerError::DownloadError { url: u, source }) => !(f is Status)
                && !(f is CreateFile) && !(f is Write) && u@ == url && source@ == text,
            _ => false,
        },
        StepSpec::Extract { archive, target } => match manager_error(e) {
            Some(VersionManagerError::FailedExtractArchive { file, target: t, error }) => file@
                == archive && t@ == target && error@ == text,
            _ => false,
        },
        StepSpec::Build { package, program, args, capture, .. } => match manager_error(e) {
            Some(VersionManagerError::FailedPackageBuildCommand { package: p, status, error }) => {
                match f {
                    StepFailure::Exit { code, stderr } => p@ == package && status == code && error@
                        == if capture {
                        " > "@ + stderr@
                    } else {
                        ""@
                    },
                    _ => false,
                }
            },
            Some(VersionManagerError::FailedRunCommand { command, source }) => !(f is Exit)
                && command@ == command_text(program, args) && source@ == text,
            _ => false,
        },
        StepSpec::RemoveArchive { path } => match manager_error(e) {
            Some(VersionManagerError::FailedDeleteFile { file, source }) => file@ == path && source@
                == text,
            _ => false,
        },
    }
}

/// The text naming a run of `program` with `args`.
fn describe_command(program: &String, args: &Vec<String>) -> (r: String)
    ensures
        r@ == command_text(program@, views(args@)),
{
    let mut r = program.clone();
    let mut i: usize = 0;
    while i < args.len()
        invariant
            i <= args@.len(),
            r@ == command_text(program@, views(args@.subrange(0, i as int))),
        decreases args.len() - i,
    {
        let ghost before = views(args@.subrange(0, i as int));
        let ghost after = views(args@.subrange(0, i + 1));
        assert(after.drop_last() =~= before);
        r.append(" ");
        r.append(args[i].as_str());
        i = i + 1;
    }
    assert(args@.subrange(0, args@.len() as int) =~= args@);
    r
}

/// The error that reports failure `f` of `step`.
pub fn step_error(step: &InstallStep, f: StepFailure) -> (e: Error)
    ensures
        is_step_error(e, step@, f),
{
    match step {
        InstallStep::CreateDirAll { .. } => {
            let text = match f {
                StepFailure::Failed(m) => m,
                StepFailure::Status(m) => m,
                StepFailure::CreateFile(m) => m,
                StepFailure::Write(m) => m,
                StepFailure::Exit { stderr, .. } => stderr,
            };
            Error::IoError(text)
        },
        InstallStep::Download { package, url, dest } => {
            let v = match f {
                StepFailure::Status(status) => VersionManagerError::FailedDownloadPackage {
                    package: package.clone(),
                    url: url.clone(),
                    status,
                },
                StepFailure::CreateFile(source) => VersionManagerError::FailedCreateFile {
                    file: dest.clone(),
                    source,
                },
                StepFailure::Write(source) => VersionManagerError::FailedWriteFile {
                    file: dest.clone(),
                    source,
                },
                StepFailure::Failed(source) => VersionManagerError::DownloadError {
                    url: url.clone(),
                    source,
                },
                StepFailure::Exit { stderr, .. } => VersionManagerError::DownloadError {
                    url: url.clone(),
                    source: stderr,
                },
            };
            Error::VersionManagerError(v)
        },
        InstallStep::Extract { archive, target } => {
            let text = match f {
                StepFailure::Failed(m) => m,
                StepFailure::Status(m) => m,
                StepFailure::CreateFile(m) => m,
                StepFailure::Write(m) => m,
                StepFailure::Exit { stderr, .. } => stderr,
            };
            Error::VersionManagerError(
                VersionManagerError::FailedExtractArchive {
                    file: archive.clone(),
                    target: target.clone(),
                    error: text,
                },
            )
        },
        InstallStep::Build { package, program, args, capture, .. } => {
            let v = match f {
                StepFailure::Exit { code, stderr } => {
                    let error = if *capture {
                        concat2(" > ", stderr.as_str())
                    } else {
                        String::from_str("")
                    };
                    VersionManagerError::FailedPackageBuildCommand {
                        package: package.clone(),
                        status: code,
                        error,
                    }
                },
                StepFailure::Failed(source) => VersionManagerError::FailedRunCommand {
                    command: describe_command(program, args),
                    source,
                },
                StepFailure::Status(source) => VersionManagerError::FailedRunCommand {
                    command: describe_command(program, args),
                    source,
                },
                StepFailure::CreateFile(source) => VersionManagerError::FailedRunCommand {
                    command: describe_command(program, args),
                    source,
                },
                StepFailure::Write(source) => VersionManagerError::FailedRunCommand {
                    command: describe_command(program, args),
                    source,
                },
            };
            Error::VersionManagerError(v)
        },
        InstallStep::RemoveArchive { path } => {
            let text = match f {
                StepFailure::Failed(m) => m,
                StepFailure::Status(m) => m,
                StepFailure::CreateFile(m) => m,
                StepFailure::Write(m) => m,
                StepFailure::Exit { stderr, .. } => stderr,
            };
            Error::VersionManagerError(
                VersionManagerError::FailedDeleteFile { file: path.clone(), source: text },
            )
        },
    }
}

/// An installation in progress: first the cache is checked, then the steps
/// run in order until one fails or all have succeeded.
pub struct Installation {
    binary_dir: String,
    steps: Vec<InstallStep>,
    next: usize,
    checked: bool,
    result: Option<Result<String, Error>>,
}

/// The mathematical content of an [`Installation`].
pub struct InstallationView {
    pub binary_dir: Seq<char>,
    pub steps: Seq<StepSpec>,
    pub next: int,
    pub checked: bool,
    pub result: Option<Result<Seq<char>, Error>>,
}

/// The view of an installation's result.
pub open spec fn result_view(r: Option<Result<String, Error>>) -> Option<Result<Seq<char>, Error>> {
    match r {
        None => None,
        Some(Ok(dir)) => Some(Ok(dir@)),
        Some(Err(e)) => Some(Err(e)),
    }
}

/// The views of a sequence of steps.
pub open spec fn step_views(v: Seq<InstallStep>) -> Seq<StepSpec> {
    v.map_values(|s: InstallStep| s@)
}

impl View for Installation {
    type V = InstallationView;

    closed spec fn view(&self) -> InstallationView {
        InstallationView {
            binary_dir: self.binary_dir@,
            steps: step_views(self.steps@),
            next: self.next as int,
            checked: self.checked,
            result: result_view(self.result),
        }
    }
}

/// An installation of `binary_dir` through `steps` that has not begun.
pub open spec fn fresh(binary_dir: Seq<char>, steps: Seq<StepSpec>) -> InstallationView {
    InstallationView { binary_dir, steps, next: 0, checked: false, result: None }
}

/// The state after the cache check found the binary directory `present` or not.
pub open spec fn after_cache_check(v: InstallationView, present: bool) -> InstallationView {
    if v.checked {
        v
    } else if present || v.steps.len() == 0 {
        InstallationView { checked: true, result: Some(Ok(v.binary_dir)), ..v }
    } else {
        InstallationView { checked: true, ..v }
    }
}

/// The step to perform now, if any.
pub open spec fn current_of(v: InstallationView) -> Option<StepSpec> {
    if v.checked && v.result is None && 0 <= v.next < v.steps.len() {
        Some(v.steps[v.next])
    } else {
        None
    }
}

/// `w` is the state after reporting `outcome` for the current step of `v`.
pub open spec fn advanced(
    v: InstallationView,
    outcome: Result<(), StepFailure>,
    w: InstallationView,
) -> bool {
    match current_of(v) {
        None => w == v,
        Some(step) => match outcome {
            Ok(_) => w == InstallationView {
                next: v.next + 1,
                result: if v.next + 1 == v.steps.len() {
                    Some(Ok(v.binary_dir))
                } else {
                    None
                },
                ..v
            },
            Err(f) => w.binary_dir == v.binary_dir && w.steps == v.steps && w.next == v.next
                && w.checked == v.checked && match w.result {
                Some(Err(e)) => is_step_error(e, step, f),
                _ => false,
            },
        },
    }
}

impl Installation {
    /// The internal consistency of an installation.
    pub closed spec fn wf(&self) -> bool {
        &&& self.next <= self.steps@.len()
        &&& !self.checked ==> self.next == 0 && self.result is None
        &&& (self.checked && self.result is None) ==> self.next < self.steps@.len()
    }

    /// An installation of `binary_dir` through `steps`, before the cache check.
    pub fn new(binary_dir: String, steps: Vec<InstallStep>) -> (r: Installation)
        ensures
            r.wf(),
            r@ == fresh(binary_dir@, step_views(steps@)),
    {
        Installation { binary_dir, steps, next: 0, checked: false, result: None }
    }

    /// An installation that failed before it could begin.
    pub fn failed(error: Error) -> (r: Installation)
        ensures
            r.wf(),
            r@.checked,
            r@.steps.len() == 0,
            r@.result == Some(Err::<Seq<char>, Error>(error)),
    {
        let r = Installation {
            binary_dir: String::new(),
            steps: Vec::new(),
            next: 0,
            checked: true,
            result: Some(Err(error)),
        };
        assert(r@.steps =~= Seq::<StepSpec>::empty());
        r
    }

    /// The directory that holds the runtime's binaries once installed.
    pub fn binary_dir(&self) -> (r: &str)
        ensures
            r@ == self@.binary_dir,
    {
        self.binary_dir.as_str()
    }

    /// Whether the cache has yet to be checked.
    pub fn needs_cache_check(&self) -> (r: bool)
        ensures
            r == !self@.checked,
    {
        !self.checked
    }

    /// Records whether the binary directory is already present. A present
    /// directory is a cache hit: the installation is done and no step runs.
    pub fn record_cache_check(&mut self, present: bool)
        requires
            old(self).wf(),
        ensures
            final(self).wf(),
            final(self)@ == after_cache_check(old(self)@, present),
    {
        if self.checked {
            return;
        }
        self.checked = true;
        if present || self.steps.len() == 0 {
            self.result = Some(Ok(self.binary_dir.clone()));
        }
    }

    /// The step to perform now; `None` before the cache check and once finished.
    pub fn current_step(&self) -> (r: Option<&InstallStep>)
        requires
            self.wf(),
        ensures
            match r {
                Some(step) => current_of(self@) == Some(step@),
                None => current_of(self@) is None,
            },
    {
        if self.checked && self.result.is_none() {
            Some(&self.steps[self.next])
        } else {
            None
        }
    }

    /// Records the outcome of the current step: success moves to the next
    /// step (or finishes), a failure ends the installation with its error.
    pub fn advance(&mut self, outcome: Result<(), StepFailure>)
        requires
            old(self).wf(),
        ensures
            final(self).wf(),
            advanced(old(self)@, outcome, final(self)@),
    {
        if !self.checked || self.result.is_some() {
            return;
        }
        match outcome {
            Ok(()) => {
                let len = self.steps.len();
                assert(self.next < len);
                self.next = self.next + 1;
                if self.next == len {
                    self.result = Some(Ok(self.binary_dir.clone()));
                }
            },
            Err(f) => {
                let e = step_error(&self.steps[self.next], f);
                self.result = Some(Err(e));
            },
        }
    }

    /// The outcome: `None` while running, else the binary directory or the error.
    pub fn into_result(self) -> (r: Option<Result<String, Error>>)
        ensures
            result_view(r) == self@.result,
    {
        self.result
    }
}

} // verus!
