//! Version managers: where each runtime lives in the cache, where it is
//! downloaded from, and which steps install it.
use vstd::prelude::*;

use crate::error::{Error, VersionManagerError};
use crate::install::{
    after_cache_check, current_of, fresh, step_views, InstallStep, Installation, InstallationView,
    StepSpec,
};
use crate::path::{join, join_path};
use crate::platform::{host_platform, host_platform_of};
use crate::text::{concat2, concat3, trim_start_char, trim_start_matching};
use crate::version::{
    node_version_problem, python_version_problem, validate_node_version, validate_python_version,
    VersionInfo, VersionedCommand,
};

verus! {

/// A Node.js version for one platform, such as `v20.11.1` for `linux-x64`.
#[derive(Debug, Clone)]
pub struct NodeVersionManager {
    pub version: String,
    pub platform: String,
}

/// A Python version, built from source.
#[derive(Debug, Clone)]
pub struct PythonVersionManager {
    pub version: String,
}

/// A version manager of any runtime kind.
#[derive(Debug, Clone)]
pub enum ShuruVersionManager {
    Node(NodeVersionManager),
    Python(PythonVersionManager),
}

/// The mathematical content of a [`ShuruVersionManager`].
pub enum ManagerSpec {
    Node { version: Seq<char>, platform: Seq<char> },
    Python { version: Seq<char> },
}

impl View for ShuruVersionManager {
    type V = ManagerSpec;

    open spec fn view(&self) -> ManagerSpec {
        match self {
            ShuruVersionManager::Node(m) => ManagerSpec::Node {
                version: m.version@,
                platform: m.platform@,
            },
            ShuruVersionManager::Python(m) => ManagerSpec::Python { version: m.version@ },
        }
    }
}

/// The cache directory of a Node version: the version without its `v`.
pub open spec fn node_download_dir(home: Seq<char>, version: Seq<char>) -> Seq<char> {
    join_path(home, ".shuru/node/"@ + trim_start_char(version, 'v'))
}

/// The distribution name, e.g. `node-v16.14.0-darwin-arm64`.
pub open spec fn node_dist_name(version: Seq<char>, platform: Seq<char>) -> Seq<char> {
    "node-"@ + version + "-"@ + platform
}

pub open spec fn node_install_dir(home: Seq<char>, version: Seq<char>, platform: Seq<char>) -> Seq<
    char,
> {
    join_path(node_download_dir(home, version), node_dist_name(version, platform))
}

pub open spec fn node_archive(home: Seq<char>, version: Seq<char>) -> Seq<char> {
    join_path(node_download_dir(home, version), "node.tar.gz"@)
}

pub open spec fn node_url(version: Seq<char>, platform: Seq<char>) -> Seq<char> {
    "https://nodejs.org/dist/"@ + version + "/"@ + node_dist_name(version, platform)
        + ".tar.gz"@
}

pub open spec fn python_download_dir(home: Seq<char>, version: Seq<char>) -> Seq<char> {
    join_path(home, ".shuru/python/"@ + version)
}

pub open spec fn python_install_dir(home: Seq<char>, version: Seq<char>) -> Seq<char> {
    join_path(python_download_dir(home, version), "install"@)
}

pub open spec fn python_archive(home: Seq<char>, version: Seq<char>) -> Seq<char> {
    join_path(python_download_dir(home, version), "python.tgz"@)
}

pub open spec fn python_source_dir(home: Seq<char>, version: Seq<char>) -> Seq<char> {
    join_path(python_download_dir(home, version), "Python-"@ + version)
}

pub open spec fn python_url(version: Seq<char>) -> Seq<char> {
    "https://www.python.org/ftp/python/"@ + version + "/Python-"@ + version + ".tgz"@
}

/// The directory holding the runtime's binaries under the home directory `home`.
pub open spec fn binary_dir_of(m: ManagerSpec, home: Seq<char>) -> Seq<char> {
    match m {
        ManagerSpec::Node { version, platform } => join_path(
            node_install_dir(home, version, platform),
            "bin"@,
        ),
        ManagerSpec::Python { version } => join_path(python_install_dir(home, version), "bin"@),
    }
}

/// A build step of Python in `cwd`.
pub open spec fn python_build(program: Seq<char>, args: Seq<Seq<char>>, cwd: Seq<char>, verbose: bool) -> StepSpec {
    StepSpec::Build { package: "Python"@, program, args, cwd, capture: !verbose }
}

/// The steps that install the runtime on a cache miss: create the cache
/// directory, download, extract, (for Python) configure, make, make install
/// and link `python`/`python-config`, then delete the archive.
pub open spec fn steps_of(m: ManagerSpec, home: Seq<char>, verbose: bool) -> Seq<StepSpec> {
    match m {
        ManagerSpec::Node { version, platform } => {
            let dir = node_download_dir(home, version);
            let archive = node_archive(home, version);
            seq![
                StepSpec::CreateDirAll { path: dir },
                StepSpec::Download {
                    package: "Node.js"@,
                    url: node_url(version, platform),
                    dest: archive,
                },
                StepSpec::Extract { archive, target: dir },
                StepSpec::RemoveArchive { path: archive },
            ]
        },
        ManagerSpec::Python { version } => {
            let dir = python_download_dir(home, version);
            let archive = python_archive(home, version);
            let src = python_source_dir(home, version);
            let bin = binary_dir_of(m, home);
            seq![
                StepSpec::CreateDirAll { path: dir },
                StepSpec::Download { package: "Python"@, url: python_url(version), dest: archive },
                StepSpec::Extract { archive, target: dir },
                python_build(
                    "./configure"@,
                    seq!["--prefix="@ + python_install_dir(home, version)],
                    src,
                    verbose,
                ),
                python_build("make"@, seq![], src, verbose),
                python_build("make"@, seq!["install"@], src, verbose),
                python_build("ln"@, seq!["-s"@, "python3"@, "python"@], bin, verbose),
                python_build(
                    "ln"@,
                    seq!["-s"@, "python3-config"@, "python-config"@],
                    bin,
                    verbose,
                ),
                StepSpec::RemoveArchive { path: archive },
            ]
        },
    }
}

/// The installation of `m` under `home`, before its cache check.
pub open spec fn installation_of(m: ManagerSpec, home: Seq<char>, verbose: bool) -> InstallationView {
    fresh(binary_dir_of(m, home), steps_of(m, home, verbose))
}

/// What `dirs::home_dir` returns: it depends on the environment, so no name
/// is given to it and nothing is assumed of it.
#[verifier::external_body]
fn home_dir() -> (r: Option<String>) {
    dirs::home_dir().map(|p| p.to_string_lossy().into_owned())
}

/// The arguments `a`, `b` and `c`, in order; empty strings are left out.
fn arguments(a: &str, b: &str, c: &str) -> (r: Vec<String>)
    ensures
        crate::install::views(r@) == (if a@.len() == 0 {
            seq![]
        } else {
            seq![a@]
        }) + (if b@.len() == 0 {
            seq![]
        } else {
            seq![b@]
        }) + (if c@.len() == 0 {
            seq![]
        } else {
            seq![c@]
        }),
{
    let mut r: Vec<String> = Vec::new();
    if a.unicode_len() > 0 {
        r.push(a.to_owned());
    }
    if b.unicode_len() > 0 {
        r.push(b.to_owned());
    }
    if c.unicode_len() > 0 {
        r.push(c.to_owned());
    }
    assert(crate::install::views(r@) =~= (if a@.len() == 0 {
            seq![]
        } else {
            seq![a@]
        }) + (if b@.len() == 0 {
            seq![]
        } else {
            seq![b@]
        }) + (if c@.len() == 0 {
            seq![]
        } else {
            seq![c@]
        }));
    r
}

/// A build step of Python.
fn python_build_step(program: &str, args: Vec<String>, cwd: &String, verbose: bool) -> (r: InstallStep)
    ensures
        r@ == (StepSpec::Build {
            package: "Python"@,
            program: program@,
            args: crate::install::views(args@),
            cwd: cwd@,
            capture: !verbose,
        }),
{
    InstallStep::Build {
        package: String::from_str("Python"),
        program: program.to_owned(),
        args,
        cwd: cwd.clone(),
        capture: !verbose,
    }
}

impl NodeVersionManager {
    /// The manager for `version_info`; a simple pin takes `host_platform`.
    pub fn with_version_info(version_info: &VersionInfo, host_platform: &str) -> (r: Self)
        ensures
            r.version@ == version_info.version_view(),
            r.platform@ == match version_info {
                VersionInfo::Simple(_) => host_platform@,
                VersionInfo::Complex { platform, .. } => platform@,
            },
    {
        match version_info {
            VersionInfo::Simple(version) => NodeVersionManager {
                version: version.clone(),
                platform: host_platform.to_owned(),
            },
            VersionInfo::Complex { version, platform } => NodeVersionManager {
                version: version.clone(),
                platform: platform.clone(),
            },
        }
    }

    /// The download URL of this version's distribution archive.
    pub fn get_download_url(&self) -> (r: String)
        ensures
            r@ == node_url(self.version@, self.platform@),
    {
        let name = self.dist_name();
        let mut r = concat3("https://nodejs.org/dist/", self.version.as_str(), "/");
        r.append(name.as_str());
        r.append(".tar.gz");
        r
    }

    /// The distribution name of this version and platform.
    pub fn dist_name(&self) -> (r: String)
        ensures
            r@ == node_dist_name(self.version@, self.platform@),
    {
        let mut r = concat3("node-", self.version.as_str(), "-");
        r.append(self.platform.as_str());
        r
    }

    /// The cache directory of this version under `home`.
    pub fn get_download_dir(&self, home: &str) -> (r: String)
        ensures
            r@ == node_download_dir(home@, self.version@),
    {
        let bare = trim_start_matching(self.version.as_str(), 'v');
        let rel = concat2(".shuru/node/", bare.as_str());
        join(home, rel.as_str())
    }

    /// The directory this version unpacks into under `home`.
    pub fn get_install_dir(&self, home: &str) -> (r: String)
        ensures
            r@ == node_install_dir(home@, self.version@, self.platform@),
    {
        let dir = self.get_download_dir(home);
        let name = self.dist_name();
        join(dir.as_str(), name.as_str())
    }

    /// Checks that `version` reads `vMAJOR.MINOR.PATCH`.
    pub fn validate_version(version: &str) -> (r: Result<(), VersionManagerError>)
        ensures
            crate::version::validation_result(
                r,
                VersionedCommand::Node,
                version@,
                node_version_problem(version@),
            ),
            crate::version::has_v_prefix(version@) && crate::version::component_count(
                crate::version::node_components(version@),
            ) == 3 && !crate::version::has_empty_component(crate::version::node_components(version@))
                && crate::version::digits_only(crate::version::node_components(version@)) ==> r is Ok,
            r is Ok ==> crate::version::has_v_prefix(version@)
                && !crate::version::has_ascii_non_digit(crate::version::node_components(version@)),
            crate::version::digits_only(crate::version::node_components(version@))
                ==> crate::version::components_numeric(crate::version::node_components(version@)),
    {
        validate_node_version(version)
    }

    fn install_steps(&self, home: &str) -> (r: Vec<InstallStep>)
        ensures
            step_views(r@) == steps_of(
                ManagerSpec::Node { version: self.version@, platform: self.platform@ },
                home@,
                false,
            ),
    {
        let dir = self.get_download_dir(home);
        let archive = join(dir.as_str(), "node.tar.gz");
        let mut r: Vec<InstallStep> = Vec::new();
        r.push(InstallStep::CreateDirAll { path: dir.clone() });
        r.push(
            InstallStep::Download {
                package: String::from_str("Node.js"),
                url: self.get_download_url(),
                dest: archive.clone(),
            },
        );
        r.push(InstallStep::Extract { archive: archive.clone(), target: dir });
        r.push(InstallStep::RemoveArchive { path: archive });
        let ghost m = ManagerSpec::Node { version: self.version@, platform: self.platform@ };
        assert(step_views(r@) =~= steps_of(m, home@, false));
        r
    }
}

impl PythonVersionManager {
    /// The manager for `version_info`; Python has no platform.
    pub fn with_version_info(version_info: &VersionInfo) -> (r: Self)
        ensures
            r.version@ == version_info.version_view(),
    {
        match version_info {
            VersionInfo::Simple(version) => PythonVersionManager { version: version.clone() },
            VersionInfo::Complex { version, .. } => PythonVersionManager {
                version: version.clone(),
            },
        }
    }

    /// The download URL of this version's source archive.
    pub fn get_download_url(&self) -> (r: String)
        ensures
            r@ == python_url(self.version@),
    {
        let mut r = concat3(
            "https://www.python.org/ftp/python/",
            self.version.as_str(),
            "/Python-",
        );
        r.append(self.version.as_str());
        r.append(".tgz");
        r
    }

    /// The cache directory of this version under `home`.
    pub fn get_download_dir(&self, home: &str) -> (r: String)
        ensures
            r@ == python_download_dir(home@, self.version@),
    {
        let rel = concat2(".shuru/python/", self.version.as_str());
        join(home, rel.as_str())
    }

    /// The installation prefix of this version under `home`.
    pub fn get_install_dir(&self, home: &str) -> (r: String)
        ensures
            r@ == python_install_dir(home@, self.version@),
    {
        let dir = self.get_download_dir(home);
        join(dir.as_str(), "install")
    }

    /// Checks that `version` reads `MAJOR.MINOR.PATCH`.
    pub fn validate_version(version: &str) -> (r: Result<(), VersionManagerError>)
        ensures
            crate::version::validation_result(
                r,
                VersionedCommand::Python,
                version@,
                python_version_problem(version@),
            ),
            crate::version::component_count(version@) == 3 && !crate::version::has_empty_component(
                version@,
            ) && crate::version::digits_only(version@) ==> r is Ok,
            r is Ok ==> !crate::version::has_ascii_non_digit(version@),
            crate::version::digits_only(version@) ==> crate::version::components_numeric(version@),
    {
        validate_python_version(version)
    }

    fn install_steps(&self, home: &str, verbose: bool) -> (r: Vec<InstallStep>)
        ensures
            step_views(r@) == steps_of(ManagerSpec::Python { version: self.version@ }, home@, verbose),
    {
        let dir = self.get_download_dir(home);
        let install = join(dir.as_str(), "install");
        let bin = join(install.as_str(), "bin");
        let archive = join(dir.as_str(), "python.tgz");
        let src_name = concat2("Python-", self.version.as_str());
        let src = join(dir.as_str(), src_name.as_str());
        let prefix = concat2("--prefix=", install.as_str());
        let configure_args = arguments(prefix.as_str(), "", "");
        let ghost configure_args_view = crate::install::views(configure_args@);
        let install_args = arguments("install", "", "");
        let link_args = arguments("-s", "python3", "python");
        let link_config_args = arguments("-s", "python3-config", "python-config");
        let no_args: Vec<String> = Vec::new();
        let ghost link_view = crate::install::views(link_args@);
        let ghost link_config_view = crate::install::views(link_config_args@);
        proof {
            reveal_strlit("");
            reveal_strlit("install");
            reveal_strlit("-s");
            reveal_strlit("python3");
            reveal_strlit("python");
            reveal_strlit("python3-config");
            reveal_strlit("python-config");
            assert(prefix@.len() > 0) by {
                reveal_strlit("--prefix=");
            }
        }
        let mut r: Vec<InstallStep> = Vec::new();
        r.push(InstallStep::CreateDirAll { path: dir.clone() });
        r.push(
            InstallStep::Download {
                package: String::from_str("Python"),
                url: self.get_download_url(),
                dest: archive.clone(),
            },
        );
        r.push(InstallStep::Extract { archive: archive.clone(), target: dir });
        r.push(python_build_step("./configure", configure_args, &src, verbose));
        assert(crate::install::views(no_args@) =~= seq![]);
        r.push(python_build_step("make", no_args, &src, verbose));
        r.push(python_build_step("make", install_args, &src, verbose));
        r.push(python_build_step("ln", link_args, &bin, verbose));
        r.push(python_build_step("ln", link_config_args, &bin, verbose));
        r.push(InstallStep::RemoveArchive { path: archive });
        let ghost m = ManagerSpec::Python { version: self.version@ };
        let ghost expected = steps_of(m, home@, verbose);
        assert(configure_args_view =~= seq!["--prefix="@ + python_install_dir(home@, self.version@)]);
        assert(link_view =~= seq!["-s"@, "python3"@, "python"@]);
        assert(link_config_view =~= seq!["-s"@, "python3-config"@, "python-config"@]);
        assert(step_views(r@) =~= expected);
        r
    }
}

impl ShuruVersionManager {
    /// The directory holding this runtime's binaries under `home`.
    pub fn get_command_dir(&self, home: &str) -> (r: String)
        ensures
            r@ == binary_dir_of(self@, home@),
    {
        match self {
            ShuruVersionManager::Node(m) => {
                let dir = m.get_install_dir(home);
                join(dir.as_str(), "bin")
            },
            ShuruVersionManager::Python(m) => {
                let dir = m.get_install_dir(home);
                join(dir.as_str(), "bin")
            },
        }
    }

    /// The installation of this runtime under `home`; `verbose` streams the
    /// output of build programs instead of capturing it.
    pub fn installation_in(&self, home: &str, verbose: bool) -> (r: Installation)
        ensures
            r.wf(),
            r@ == installation_of(self@, home@, verbose),
    {
        let binary_dir = self.get_command_dir(home);
        let steps = match self {
            ShuruVersionManager::Node(m) => m.install_steps(home),
            ShuruVersionManager::Python(m) => m.install_steps(home, verbose),
        };
        Installation::new(binary_dir, steps)
    }

    /// Begins installing this runtime under the user's home directory. Without
    /// a home directory the installation has failed already.
    pub fn install_and_get_binary_path(&self, verbose: bool) -> (r: Installation)
        ensures
            r.wf(),
            r@.result == Some(
                Err::<Seq<char>, Error>(
                    Error::VersionManagerError(VersionManagerError::UnableHomeDirectory),
                ),
            ) || exists|home: Seq<char>| r@ == installation_of(self@, home, verbose),
    {
        match home_dir() {
            Some(home) => self.installation_in(home.as_str(), verbose),
            None => Installation::failed(
                Error::VersionManagerError(VersionManagerError::UnableHomeDirectory),
            ),
        }
    }
}

/// The manager that `kind` and `info` call for on a host with operating
/// system `os` and architecture `arch`, or why there is none.
pub open spec fn manager_for(
    kind: VersionedCommand,
    info: VersionInfo,
    os: Seq<char>,
    arch: Seq<char>,
) -> Option<ManagerSpec> {
    match kind {
        VersionedCommand::Node => {
            if node_version_problem(info.version_view()) is Some {
                None
            } else {
                match info {
                    VersionInfo::Simple(v) => match host_platform_of(os, arch) {
                        Some(p) => Some(ManagerSpec::Node { version: v@, platform: p }),
                        None => None,
                    },
                    VersionInfo::Complex { version, platform } => Some(
                        ManagerSpec::Node { version: version@, platform: platform@ },
                    ),
                }
            }
        },
        VersionedCommand::Python => {
            if python_version_problem(info.version_view()) is Some {
                None
            } else {
                Some(ManagerSpec::Python { version: info.version_view() })
            }
        },
    }
}

impl VersionedCommand {
    /// Validates the pinned version, then builds its manager; a simple Node
    /// pin takes the platform of the host (`os`, `arch`).
    pub fn get_version_manager(&self, version_info: &VersionInfo, os: &str, arch: &str) -> (r:
        Result<ShuruVersionManager, Error>)
        ensures
            match r {
                Ok(m) => manager_for(*self, *version_info, os@, arch@) == Some(m@),
                Err(e) => manager_for(*self, *version_info, os@, arch@) is None && match e {
                    Error::VersionManagerError(v) => match *self {
                        VersionedCommand::Node => match node_version_problem(
                            version_info.version_view(),
                        ) {
                            Some(h) => crate::version::is_invalid_version(
                                v,
                                VersionedCommand::Node,
                                version_info.version_view(),
                                h,
                            ),
                            None => v is UnsupportedOs && v->UnsupportedOs_0@ == os@,
                        },
                        VersionedCommand::Python => crate::version::is_invalid_version(
                            v,
                            VersionedCommand::Python,
                            version_info.version_view(),
                            python_version_problem(version_info.version_view())->0,
                        ),
                    },
                    _ => false,
                },
            },
    {
        let version = version_info.get_version();
        match self {
            VersionedCommand::Node => {
                if let Err(e) = NodeVersionManager::validate_version(version) {
                    return Err(Error::VersionManagerError(e));
                }
                let manager = match version_info {
                    VersionInfo::Simple(_) => {
                        let platform = match host_platform(os, arch) {
                            Ok(p) => p,
                            Err(e) => {
                                return Err(Error::VersionManagerError(e));
                            },
                        };
                        NodeVersionManager::with_version_info(version_info, platform.as_str())
                    },
                    VersionInfo::Complex { .. } => NodeVersionManager::with_version_info(
                        version_info,
                        "",
                    ),
                };
                Ok(ShuruVersionManager::Node(manager))
            },
            VersionedCommand::Python => {
                if let Err(e) = PythonVersionManager::validate_version(version) {
                    return Err(Error::VersionManagerError(e));
                }
                Ok(ShuruVersionManager::Python(PythonVersionManager::with_version_info(version_info)))
            },
        }
    }
}

/// A cache hit is idempotent: when the binary directory is already present
/// the installation is finished with that directory, and no step (no
/// download in particular) is ever handed out.
pub proof fn lemma_cache_hit_installs_nothing(m: ManagerSpec, home: Seq<char>, verbose: bool)
    ensures
        after_cache_check(installation_of(m, home, verbose), true).result == Some(
            Ok::<Seq<char>, Error>(binary_dir_of(m, home)),
        ),
        current_of(after_cache_check(installation_of(m, home, verbose), true)) is None,
{
}

} // verus!
