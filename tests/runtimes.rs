use shuru::error::{Error, VersionHint, VersionManagerError};
use shuru::install::{InstallStep, StepFailure};
use shuru::managers::{NodeVersionManager, PythonVersionManager, ShuruVersionManager};
use shuru::platform::{get_architecture, host_platform, os_type};
use shuru::version::{validate_node_version, validate_python_version, VersionInfo, VersionedCommand};

fn hint(r: Result<(), VersionManagerError>) -> VersionHint {
    match r {
        Err(VersionManagerError::InvalidVersion { hint, .. }) => hint,
        other => panic!("expected a rejected version, got {:?}", other),
    }
}

fn node(version: &str, platform: &str) -> ShuruVersionManager {
    ShuruVersionManager::Node(NodeVersionManager {
        version: version.to_string(),
        platform: platform.to_string(),
    })
}

#[test]
fn node_version_syntax() {
    assert_eq!(validate_node_version("v14.17.0"), Ok(()));
    assert_eq!(hint(validate_node_version("14.17.0")), VersionHint::MissingPrefix);
    assert_eq!(hint(validate_node_version("14.17")), VersionHint::MissingPatch);
    assert_eq!(hint(validate_node_version("v14.17")), VersionHint::MissingPatch);
    assert_eq!(hint(validate_node_version("v14")), VersionHint::MissingMinorAndPatch);
    assert_eq!(hint(validate_node_version("14")), VersionHint::MissingMinorAndPatch);
    assert_eq!(hint(validate_node_version("v1.2.3.4")), VersionHint::UseMajorMinorPatch);
    assert_eq!(hint(validate_node_version("v14.x.0")), VersionHint::UseMajorMinorPatch);
    assert_eq!(hint(validate_node_version("14.x.0")), VersionHint::MissingPrefix);
    assert_eq!(hint(validate_node_version("v1..2")), VersionHint::UseMajorMinorPatch);
    assert_eq!(hint(validate_node_version("v1..3")), VersionHint::UseMajorMinorPatch);
    assert_eq!(hint(validate_node_version("v.1.2")), VersionHint::UseMajorMinorPatch);
    assert_eq!(hint(validate_node_version("")), VersionHint::MissingMinorAndPatch);
}

#[test]
fn node_rejection_carries_the_version() {
    assert_eq!(
        validate_node_version("14.17.0"),
        Err(VersionManagerError::InvalidVersion {
            runtime: VersionedCommand::Node,
            version: "14.17.0".to_string(),
            hint: VersionHint::MissingPrefix,
        })
    );
}

#[test]
fn python_version_syntax() {
    assert_eq!(validate_python_version("3.10.0"), Ok(()));
    assert_eq!(hint(validate_python_version("3.10")), VersionHint::MissingPatch);
    assert_eq!(hint(validate_python_version("14.17")), VersionHint::MissingPatch);
    assert_eq!(hint(validate_python_version("3")), VersionHint::MissingMinorAndPatch);
    assert_eq!(hint(validate_python_version("3.1.0.1")), VersionHint::UseMajorMinorPatch);
    assert_eq!(hint(validate_python_version("3.x.0")), VersionHint::NonNumeric);
    assert_eq!(hint(validate_python_version("v3.10.0")), VersionHint::NonNumeric);
    assert_eq!(hint(validate_python_version("3..0")), VersionHint::NonNumeric);
    assert_eq!(hint(validate_python_version("3.10.")), VersionHint::NonNumeric);
    assert_eq!(hint(validate_python_version("")), VersionHint::MissingMinorAndPatch);
}

#[test]
fn platform_names() {
    assert_eq!(os_type("linux"), Some("linux"));
    assert_eq!(os_type("macos"), Some("darwin"));
    assert_eq!(os_type("windows"), Some("win"));
    assert_eq!(os_type("freebsd"), None);
    assert_eq!(get_architecture("x86_64"), "x64");
    assert_eq!(get_architecture("aarch64"), "arm64");
    assert_eq!(get_architecture("x86"), "x86");
    assert_eq!(get_architecture("arm"), "arm");
    assert_eq!(get_architecture("riscv64"), "unknown");
    assert_eq!(host_platform("linux", "aarch64"), Ok("linux-arm64".to_string()));
    assert_eq!(
        host_platform("freebsd", "x86_64"),
        Err(VersionManagerError::UnsupportedOs("freebsd".to_string()))
    );
}

#[test]
fn version_info_accessors() {
    let simple = VersionInfo::Simple("v1.2.3".to_string());
    let complex = VersionInfo::Complex {
        version: "v4.5.6".to_string(),
        platform: "darwin-arm64".to_string(),
    };
    assert_eq!(simple.get_version(), "v1.2.3");
    assert_eq!(complex.get_version(), "v4.5.6");
    assert_eq!(simple.describe(), "Version: v1.2.3");
    assert_eq!(complex.describe(), "Version: v4.5.6, Platform: darwin-arm64");
    let m = NodeVersionManager::with_version_info(&simple, "linux-x64");
    assert_eq!((m.version.as_str(), m.platform.as_str()), ("v1.2.3", "linux-x64"));
    let m = NodeVersionManager::with_version_info(&complex, "linux-x64");
    assert_eq!(m.platform, "darwin-arm64");
    assert_eq!(PythonVersionManager::with_version_info(&complex).version, "v4.5.6");
    assert_eq!(VersionedCommand::from_name("python"), Some(VersionedCommand::Python));
    assert_eq!(VersionedCommand::from_name("ruby"), None);
    assert_eq!(VersionedCommand::Node.name(), "node");
}

#[test]
fn version_manager_resolution() {
    let m = VersionedCommand::Node
        .get_version_manager(&VersionInfo::Simple("v18.0.0".to_string()), "linux", "x86_64")
        .unwrap();
    assert_eq!(m.get_command_dir("/h"), "/h/.shuru/node/18.0.0/node-v18.0.0-linux-x64/bin");
    let bad = VersionedCommand::Node.get_version_manager(
        &VersionInfo::Simple("18.0.0".to_string()),
        "linux",
        "x86_64",
    );
    assert!(matches!(
        bad,
        Err(Error::VersionManagerError(VersionManagerError::InvalidVersion {
            hint: VersionHint::MissingPrefix,
            ..
        }))
    ));
    let unsupported = VersionedCommand::Node.get_version_manager(
        &VersionInfo::Simple("v18.0.0".to_string()),
        "plan9",
        "x86_64",
    );
    assert_eq!(
        unsupported.err(),
        Some(Error::VersionManagerError(VersionManagerError::UnsupportedOs("plan9".to_string())))
    );
    let py = VersionedCommand::Python
        .get_version_manager(&VersionInfo::Simple("3.12.1".to_string()), "plan9", "x")
        .unwrap();
    assert_eq!(py.get_command_dir("/h/"), "/h/.shuru/python/3.12.1/install/bin");
}

#[test]
fn node_urls_and_directories() {
    let m = NodeVersionManager { version: "v16.14.0".to_string(), platform: "darwin-arm64".to_string() };
    assert_eq!(
        m.get_download_url(),
        "https://nodejs.org/dist/v16.14.0/node-v16.14.0-darwin-arm64.tar.gz"
    );
    assert_eq!(m.get_download_dir("/home/u"), "/home/u/.shuru/node/16.14.0");
    assert_eq!(m.get_install_dir("/home/u"), "/home/u/.shuru/node/16.14.0/node-v16.14.0-darwin-arm64");
    let p = PythonVersionManager { version: "3.10.0".to_string() };
    assert_eq!(p.get_download_url(), "https://www.python.org/ftp/python/3.10.0/Python-3.10.0.tgz");
    assert_eq!(p.get_install_dir("/home/u"), "/home/u/.shuru/python/3.10.0/install");
}

#[test]
fn cache_hit_returns_binary_dir_without_steps() {
    let m = node("v14.17.0", "linux-x64");
    let mut inst = m.installation_in("/home/u", false);
    assert!(inst.needs_cache_check());
    assert!(inst.current_step().is_none());
    inst.record_cache_check(true);
    assert!(inst.current_step().is_none());
    assert_eq!(
        inst.into_result(),
        Some(Ok("/home/u/.shuru/node/14.17.0/node-v14.17.0-linux-x64/bin".to_string()))
    );
}

#[test]
fn node_cache_miss_runs_every_step() {
    let m = node("v14.17.0", "linux-x64");
    let mut inst = m.installation_in("/home/u", false);
    inst.record_cache_check(false);
    let mut steps = Vec::new();
    while let Some(step) = inst.current_step() {
        steps.push(step.clone());
        inst.advance(Ok(()));
    }
    assert_eq!(steps.len(), 4);
    assert!(matches!(&steps[0], InstallStep::CreateDirAll { path } if path == "/home/u/.shuru/node/14.17.0"));
    assert!(matches!(&steps[1], InstallStep::Download { package, url, dest }
        if package == "Node.js"
            && url == "https://nodejs.org/dist/v14.17.0/node-v14.17.0-linux-x64.tar.gz"
            && dest == "/home/u/.shuru/node/14.17.0/node.tar.gz"));
    assert!(matches!(&steps[2], InstallStep::Extract { archive, target }
        if archive == "/home/u/.shuru/node/14.17.0/node.tar.gz" && target == "/home/u/.shuru/node/14.17.0"));
    assert!(matches!(&steps[3], InstallStep::RemoveArchive { path } if path == "/home/u/.shuru/node/14.17.0/node.tar.gz"));
    assert_eq!(
        inst.into_result(),
        Some(Ok("/home/u/.shuru/node/14.17.0/node-v14.17.0-linux-x64/bin".to_string()))
    );
}

#[test]
fn download_status_failure_is_typed() {
    let m = node("v14.17.0", "linux-x64");
    let mut inst = m.installation_in("/home/u", false);
    inst.record_cache_check(false);
    inst.advance(Ok(()));
    inst.advance(Err(StepFailure::Status("404 Not Found".to_string())));
    assert!(inst.current_step().is_none());
    assert_eq!(
        inst.into_result(),
        Some(Err(Error::VersionManagerError(VersionManagerError::FailedDownloadPackage {
            package: "Node.js".to_string(),
            url: "https://nodejs.org/dist/v14.17.0/node-v14.17.0-linux-x64.tar.gz".to_string(),
            status: "404 Not Found".to_string(),
        })))
    );
}

#[test]
fn step_failures_map_to_errors() {
    let m = node("v1.0.0", "linux-x64");
    let cases = vec![
        (0, StepFailure::Failed("denied".to_string()), Error::IoError("denied".to_string())),
        (
            1,
            StepFailure::Failed("timeout".to_string()),
            Error::VersionManagerError(VersionManagerError::DownloadError {
                url: "https://nodejs.org/dist/v1.0.0/node-v1.0.0-linux-x64.tar.gz".to_string(),
                source: "timeout".to_string(),
            }),
        ),
        (
            1,
            StepFailure::CreateFile("ro".to_string()),
            Error::VersionManagerError(VersionManagerError::FailedCreateFile {
                file: "/h/.shuru/node/1.0.0/node.tar.gz".to_string(),
                source: "ro".to_string(),
            }),
        ),
        (
            1,
            StepFailure::Write("full".to_string()),
            Error::VersionManagerError(VersionManagerError::FailedWriteFile {
                file: "/h/.shuru/node/1.0.0/node.tar.gz".to_string(),
                source: "full".to_string(),
            }),
        ),
        (
            2,
            StepFailure::Failed("corrupt".to_string()),
            Error::VersionManagerError(VersionManagerError::FailedExtractArchive {
                file: "/h/.shuru/node/1.0.0/node.tar.gz".to_string(),
                target: "/h/.shuru/node/1.0.0".to_string(),
                error: "corrupt".to_string(),
            }),
        ),
        (
            3,
            StepFailure::Failed("busy".to_string()),
            Error::VersionManagerError(VersionManagerError::FailedDeleteFile {
                file: "/h/.shuru/node/1.0.0/node.tar.gz".to_string(),
                source: "busy".to_string(),
            }),
        ),
    ];
    for (at, failure, expected) in cases {
        let mut inst = m.installation_in("/h", false);
        inst.record_cache_check(false);
        for _ in 0..at {
            inst.advance(Ok(()));
        }
        inst.advance(Err(failure));
        assert_eq!(inst.into_result(), Some(Err(expected)));
    }
}

#[test]
fn python_build_steps_and_failures() {
    let m = ShuruVersionManager::Python(PythonVersionManager { version: "3.10.0".to_string() });
    let mut inst = m.installation_in("/h", false);
    inst.record_cache_check(false);
    let mut programs = Vec::new();
    while let Some(step) = inst.current_step() {
        if let InstallStep::Build { program, args, cwd, capture, .. } = step {
            programs.push((program.clone(), args.clone(), cwd.clone(), *capture));
        }
        inst.advance(Ok(()));
    }
    assert_eq!(programs.len(), 5);
    assert_eq!(programs[0].0, "./configure");
    assert_eq!(programs[0].1, vec!["--prefix=/h/.shuru/python/3.10.0/install".to_string()]);
    assert_eq!(programs[0].2, "/h/.shuru/python/3.10.0/Python-3.10.0");
    assert!(programs[0].3);
    assert_eq!(programs[2].1, vec!["install".to_string()]);
    assert_eq!(programs[3].1, vec!["-s".to_string(), "python3".to_string(), "python".to_string()]);
    assert_eq!(programs[4].2, "/h/.shuru/python/3.10.0/install/bin");
    assert_eq!(inst.into_result(), Some(Ok("/h/.shuru/python/3.10.0/install/bin".to_string())));

    let mut quiet = m.installation_in("/h", false);
    quiet.record_cache_check(false);
    for _ in 0..4 {
        quiet.advance(Ok(()));
    }
    quiet.advance(Err(StepFailure::Exit { code: 2, stderr: "boom".to_string() }));
    assert_eq!(
        quiet.into_result(),
        Some(Err(Error::VersionManagerError(VersionManagerError::FailedPackageBuildCommand {
            package: "Python".to_string(),
            status: 2,
            error: " > boom".to_string(),
        })))
    );

    let mut loud = m.installation_in("/h", true);
    loud.record_cache_check(false);
    for _ in 0..5 {
        loud.advance(Ok(()));
    }
    loud.advance(Err(StepFailure::Failed("no such file".to_string())));
    assert_eq!(
        loud.into_result(),
        Some(Err(Error::VersionManagerError(VersionManagerError::FailedRunCommand {
            command: "make install".to_string(),
            source: "no such file".to_string(),
        })))
    );
}
