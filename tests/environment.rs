use shuru::env::compose_env_path;
use shuru::error::{get_error_code, ConfigValidationError, Error, VersionManagerError};
use shuru::fuzzy::{filter_lowered, filter_matches, fuzzy_match, levenshtein_distance, rank_lowered};
use shuru::path::{is_within, join};
use shuru::sandbox::{requested_dir, validate_directory, DirProbe};
use shuru::shell::ShellType;
use shuru::tasks::TaskConfig;

#[test]
fn path_composition_puts_pinned_dirs_first() {
    let one = compose_env_path(&vec!["/a/bin".to_string()], "/usr/bin");
    assert_eq!(one, "/a/bin:/usr/bin");
    assert!(one.ends_with(":/usr/bin"));
    let two = compose_env_path(&vec!["/a/bin".to_string(), "/b/bin".to_string()], "/usr/bin");
    assert_eq!(two, "/b/bin:/a/bin:/usr/bin");
    assert_eq!(compose_env_path(&vec![], "/usr/bin"), "/usr/bin");
    assert_eq!(compose_env_path(&vec!["/a/bin".to_string()], ""), "/a/bin:");
}

#[test]
fn sandbox_rejects_escapes() {
    let mut t = TaskConfig::new("ls".to_string());
    t.dir = Some("../../etc".to_string());
    let resolved = requested_dir(&t, "/proj").unwrap();
    assert_eq!(resolved, "/proj/../../etc");
    let r = validate_directory(&resolved, &DirProbe::Canonical("/etc".to_string()), "/proj");
    assert_eq!(r, Err(Error::DirectoryOutsideRoot("/proj/../../etc".to_string())));
}

#[test]
fn sandbox_accepts_subdirectory() {
    let mut t = TaskConfig::new("ls".to_string());
    t.dir = Some("sub".to_string());
    let resolved = requested_dir(&t, "/proj").unwrap();
    let r = validate_directory(&resolved, &DirProbe::Canonical("/proj/sub".to_string()), "/proj");
    assert_eq!(r, Ok("/proj/sub".to_string()));
    let same = validate_directory("/proj/.", &DirProbe::Canonical("/proj".to_string()), "/proj");
    assert_eq!(same, Ok("/proj".to_string()));
}

#[test]
fn sandbox_other_outcomes() {
    assert_eq!(
        validate_directory("/proj/nope", &DirProbe::Missing, "/proj"),
        Err(Error::DirectoryNotFound("/proj/nope".to_string()))
    );
    assert_eq!(
        validate_directory("/proj/x", &DirProbe::Unresolvable("loop".to_string()), "/proj"),
        Err(Error::DirectoryUnresolvable("/proj/x".to_string(), "loop".to_string()))
    );
    assert_eq!(
        validate_directory("/proj2", &DirProbe::Canonical("/proj2".to_string()), "/proj"),
        Err(Error::DirectoryOutsideRoot("/proj2".to_string()))
    );
    assert!(requested_dir(&TaskConfig::new("ls".to_string()), "/proj").is_none());
}

#[test]
fn path_helpers() {
    assert_eq!(join("/proj", "sub"), "/proj/sub");
    assert_eq!(join("/proj/", "sub"), "/proj/sub");
    assert_eq!(join("/proj", "/abs"), "/abs");
    assert_eq!(join("", "rel"), "rel");
    assert!(is_within("/proj/a/b", "/proj"));
    assert!(is_within("/proj", "/proj"));
    assert!(is_within("/x", "/"));
    assert!(!is_within("/project", "/proj"));
}

#[test]
fn shell_detection() {
    assert_eq!(ShellType::from_env(true, Some("/bin/bash")), ShellType::PowerShell);
    assert_eq!(ShellType::from_env(false, Some("/bin/bash")), ShellType::Bash);
    assert_eq!(ShellType::from_env(false, Some("/usr/local/bin/fish")), ShellType::Fish);
    assert_eq!(ShellType::from_env(false, Some("/usr/bin/zsh")), ShellType::Zsh);
    assert_eq!(ShellType::from_env(false, Some("/bin/dash")), ShellType::Unknown);
    assert_eq!(ShellType::from_env(false, None), ShellType::Unknown);
}

#[test]
fn shell_invocation() {
    assert_eq!(ShellType::Bash.program(), "bash");
    assert_eq!(ShellType::Bash.flags(), vec!["-c".to_string()]);
    assert_eq!(ShellType::Unknown.program(), "/bin/sh");
    assert_eq!(ShellType::Unknown.flags(), vec!["-cu".to_string()]);
    assert_eq!(ShellType::PowerShell.program(), "powershell");
    assert_eq!(
        ShellType::PowerShell.flags(),
        vec!["-NoLogo".to_string(), "-Command".to_string()]
    );
    assert_eq!(ShellType::Fish.flags(), vec!["-c".to_string()]);
}

#[test]
fn arguments_are_quoted() {
    assert_eq!(ShellType::Bash.escape_argument("foo bar"), b"$'foo bar'".to_vec());
    assert_eq!(ShellType::Zsh.escape_argument("foo bar"), b"$'foo bar'".to_vec());
    assert_eq!(ShellType::Bash.escape_argument("plain"), b"plain".to_vec());
    assert_eq!(ShellType::Unknown.escape_argument("foo bar"), b"foo' bar'".to_vec());
    assert_eq!(ShellType::Unknown.escape_argument(""), b"''".to_vec());
    assert_ne!(ShellType::Fish.escape_argument("a;b"), b"a;b".to_vec());
    assert_eq!(ShellType::PowerShell.escape_argument("it's"), b"'it''s'".to_vec());
}

#[test]
fn command_line_appends_quoted_arguments() {
    let args = vec!["a b".to_string(), "c".to_string()];
    assert_eq!(ShellType::Bash.command_line("echo", &args), b"echo $'a b' c".to_vec());
    assert_eq!(ShellType::Unknown.command_line("npm test", &vec![]), b"npm test".to_vec());
    assert_eq!(
        ShellType::PowerShell.command_line("echo", &vec!["x; rm".to_string()]),
        b"echo 'x; rm'".to_vec()
    );
}

#[test]
fn edit_distances() {
    assert_eq!(levenshtein_distance("kitten", "sitting"), 3);
    assert_eq!(levenshtein_distance("", "abc"), 3);
    assert_eq!(levenshtein_distance("abc", ""), 3);
    assert_eq!(levenshtein_distance("buld", "build"), 1);
    assert_eq!(levenshtein_distance("same", "same"), 0);
}

#[test]
fn fuzzy_suggests_close_names_only() {
    let names = vec!["build".to_string(), "test".to_string()];
    let found = filter_matches("buld", &names, 50);
    assert_eq!(found.len(), 1);
    assert_eq!(found[0].candidate, "build");
    assert_eq!((found[0].distance, found[0].max_len), (1, 5));
    assert!(filter_matches("xyz", &names, 50).is_empty());
}

#[test]
fn fuzzy_ranks_by_similarity_ignoring_case() {
    let names = vec!["tests".to_string(), "BUILD".to_string(), "bind".to_string()];
    let ranked = fuzzy_match("build", &names);
    let order: Vec<&str> = ranked.iter().map(|m| m.candidate.as_str()).collect();
    assert_eq!(order, vec!["BUILD", "bind", "tests"]);
    assert_eq!(ranked[0].distance, 0);
}

#[test]
fn error_codes_by_kind() {
    assert_eq!(get_error_code(&Error::ConfigLoadError("x".to_string())), 168);
    assert_eq!(
        get_error_code(&Error::ConfigValidationError(ConfigValidationError::EmptyDirError(
            "t".to_string()
        ))),
        166
    );
    assert_eq!(get_error_code(&Error::CyclicDependency("t".to_string())), 166);
    assert_eq!(get_error_code(&Error::ConfigFileNotFound), 167);
    assert_eq!(get_error_code(&Error::CommandExecutionError("x".to_string())), 170);
    assert_eq!(get_error_code(&Error::DirectoryOutsideRoot("x".to_string())), 170);
    assert_eq!(get_error_code(&Error::CommandNotFound("x".to_string())), 171);
    assert_eq!(
        get_error_code(&Error::CommandNotFoundWithSuggestions("x".to_string(), "y".to_string())),
        171
    );
    assert_eq!(
        get_error_code(&Error::VersionManagerError(VersionManagerError::UnableHomeDirectory)),
        175
    );
    assert_eq!(get_error_code(&Error::DefaultCommandNotFound), 180);
    assert_eq!(get_error_code(&Error::HomeDirectoryNotFound), 1);
}

#[test]
fn fuzzy_thresholds_at_the_edges() {
    let names = vec!["build".to_string(), "test".to_string()];
    assert!(filter_matches("build", &names, 150).is_empty());
    assert_eq!(filter_matches("buld", &names, 0).len(), 2);
    assert_eq!(filter_matches("build", &names, 100).len(), 1);
}

#[test]
fn ranking_over_lowered_texts() {
    let candidates = vec!["Tests".to_string(), "BUILD".to_string()];
    let lowered = vec!["tests".to_string(), "build".to_string()];
    let ranked = rank_lowered("buld", &lowered, &candidates);
    let order: Vec<&str> = ranked.iter().map(|m| m.candidate.as_str()).collect();
    assert_eq!(order, vec!["BUILD", "Tests"]);
    assert_eq!((ranked[0].distance, ranked[0].max_len), (1, 5));
    let kept = filter_lowered("buld", &lowered, &candidates, 50);
    assert_eq!(kept.len(), 1);
    assert_eq!(kept[0].candidate, "BUILD");
}
