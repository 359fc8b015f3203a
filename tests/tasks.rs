use shuru::error::{ConfigValidationError, Error};
use shuru::runner::TaskRunner;
use shuru::tasks::{Config, TaskConfig};
use shuru::version::{VersionInfo, VersionedCommand};

fn task(command: &str, depends: &[&str]) -> TaskConfig {
    let mut t = TaskConfig::new(command.to_string());
    t.depends = depends.iter().map(|d| d.to_string()).collect();
    t
}

fn config(entries: Vec<(&str, TaskConfig)>) -> Config {
    let mut c = Config::new();
    for (name, t) in entries {
        c.tasks.push((name.to_string(), t));
    }
    c
}

fn drain(runner: &TaskRunner, name: &str) -> Vec<String> {
    let mut run = runner.run_command(name).unwrap();
    let mut seen = Vec::new();
    while let Some(next) = run.next_task() {
        seen.push(next.to_string());
        run.report(true);
    }
    seen
}

#[test]
fn task_without_dependencies_runs_alone() {
    let c = config(vec![("build", task("cargo build", &[])), ("test", task("cargo test", &[]))]);
    assert_eq!(c.execution_order("build").unwrap(), vec!["build".to_string()]);
    let runner = TaskRunner::new(c);
    assert_eq!(drain(&runner, "build"), vec!["build".to_string()]);
}

#[test]
fn dependencies_run_first_in_declared_order() {
    let c = config(vec![
        ("a", task("echo a", &[])),
        ("b", task("echo b", &["a"])),
        ("t", task("echo t", &["a", "b"])),
    ]);
    assert_eq!(
        c.execution_order("t").unwrap(),
        vec!["a".to_string(), "a".to_string(), "b".to_string(), "t".to_string()]
    );
}

#[test]
fn shared_dependency_runs_once_per_path() {
    let c = config(vec![
        ("a", task("echo a", &[])),
        ("x", task("echo x", &["a"])),
        ("y", task("echo y", &["a"])),
        ("top", task("echo top", &["x", "y"])),
    ]);
    let order: Vec<String> = c.execution_order("top").unwrap();
    assert_eq!(order, vec!["a", "x", "a", "y", "top"]);
}

#[test]
fn dependency_cycle_is_an_error() {
    let c = config(vec![("p", task("echo p", &["q"])), ("q", task("echo q", &["p"]))]);
    assert_eq!(c.execution_order("p"), Err(Error::CyclicDependency("p".to_string())));
}

#[test]
fn self_dependency_is_a_cycle() {
    let c = config(vec![("loop", task("echo", &["loop"]))]);
    assert_eq!(c.execution_order("loop"), Err(Error::CyclicDependency("loop".to_string())));
}

#[test]
fn missing_dependency_aborts_before_the_task() {
    let c = config(vec![("t", task("echo t", &["a", "nope"])), ("a", task("echo a", &[]))]);
    assert_eq!(c.execution_order("t"), Err(Error::CommandNotFound("nope".to_string())));
}

#[test]
fn failure_stops_the_run() {
    let c = config(vec![
        ("a", task("echo a", &[])),
        ("b", task("echo b", &[])),
        ("t", task("echo t", &["a", "b"])),
    ]);
    let runner = TaskRunner::new(c);
    let mut run = runner.run_command("t").unwrap();
    assert_eq!(run.next_task(), Some("a"));
    run.report(false);
    assert!(run.failed());
    assert_eq!(run.next_task(), None);
    run.report(true);
    assert_eq!(run.next_task(), None);
}

#[test]
fn unknown_task_suggests_similar_names() {
    let c = config(vec![("build", task("make", &[])), ("test", task("make test", &[]))]);
    assert_eq!(
        c.execution_order("buld"),
        Err(Error::CommandNotFoundWithSuggestions("buld".to_string(), "build".to_string()))
    );
}

#[test]
fn unknown_task_without_similar_names() {
    let c = config(vec![("build", task("make", &[])), ("test", task("make test", &[]))]);
    assert_eq!(c.execution_order("xyz"), Err(Error::CommandNotFound("xyz".to_string())));
}

#[test]
fn default_task_runs_with_its_dependencies() {
    let mut main = task("echo main", &["prep"]);
    main.default = Some(true);
    let c = config(vec![("prep", task("echo prep", &[])), ("main", main)]);
    let runner = TaskRunner::new(c);
    assert_eq!(runner.default_task_name(), Ok("main".to_string()));
    let mut run = runner.run_default().unwrap();
    assert_eq!(run.next_task(), Some("prep"));
    run.report(true);
    assert_eq!(run.next_task(), Some("main"));
    run.report(true);
    assert_eq!(run.next_task(), None);
}

#[test]
fn missing_default_task() {
    let mut off = task("echo", &[]);
    off.default = Some(false);
    let runner = TaskRunner::new(config(vec![("a", off)]));
    assert!(matches!(runner.run_default(), Err(Error::DefaultCommandNotFound)));
}

#[test]
fn task_validation() {
    let empty = task("", &[]);
    assert_eq!(
        empty.validate("x"),
        Err(ConfigValidationError::EmptyCommandError("x".to_string()))
    );
    let mut no_dir = task("ls", &[]);
    no_dir.dir = Some(String::new());
    assert_eq!(no_dir.validate("y"), Err(ConfigValidationError::EmptyDirError("y".to_string())));
    let mut fine = task("ls", &[]);
    fine.dir = Some("sub".to_string());
    assert_eq!(fine.validate("z"), Ok(()));
}

#[test]
fn config_validation_checks_dependencies() {
    let good = config(vec![("a", task("echo", &[])), ("b", task("echo", &["a"]))]);
    assert_eq!(good.validate_tasks(), Ok(()));
    let bad = config(vec![("a", task("echo", &[])), ("b", task("echo", &["a", "c"]))]);
    assert_eq!(bad.validate_tasks(), Err(Error::CommandNotFound("c".to_string())));
    let empty = config(vec![("a", task("", &[]))]);
    assert_eq!(
        empty.validate_tasks(),
        Err(Error::ConfigValidationError(ConfigValidationError::EmptyCommandError(
            "a".to_string()
        )))
    );
}

#[test]
fn pins_are_ordered_by_runtime() {
    let mut c = Config::new();
    c.pin_version(VersionedCommand::Python, VersionInfo::Simple("3.10.0".to_string()));
    c.pin_version(VersionedCommand::Node, VersionInfo::Simple("v18.0.0".to_string()));
    c.pin_version(VersionedCommand::Node, VersionInfo::Simple("v20.1.0".to_string()));
    assert_eq!(
        c.versions,
        vec![
            (VersionedCommand::Node, VersionInfo::Simple("v20.1.0".to_string())),
            (VersionedCommand::Python, VersionInfo::Simple("3.10.0".to_string())),
        ]
    );
}

#[test]
fn unsuccessful_dependency_exit_stops_the_run() {
    let c = config(vec![
        ("a", task("exit 3", &[])),
        ("b", task("echo b", &[])),
        ("t", task("echo t", &["a", "b"])),
    ]);
    let runner = TaskRunner::new(c);
    let mut run = runner.run_command("t").unwrap();
    assert_eq!(run.next_task(), Some("a"));
    run.report_exit(Some(3));
    assert_eq!(run.next_task(), None);
    let mut run = runner.run_command("t").unwrap();
    run.report_exit(Some(0));
    assert_eq!(run.next_task(), Some("b"));
    run.report_exit(None);
    assert!(run.failed());
    assert_eq!(run.next_task(), None);
}

#[test]
fn duplicate_task_names_are_rejected() {
    let dup = config(vec![("a", task("echo 1", &[])), ("a", task("echo 2", &[]))]);
    assert_eq!(dup.validate_tasks(), Err(Error::DuplicateTask("a".to_string())));
}
