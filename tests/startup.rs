use nico::cli::{Operations, Shell, StatusArgs};
use nico::error::Error;
use nico::startup::{delegate_args, dependency_status, should_delegate, DependencyStatus};

#[test]
fn delegation_guard() {
    assert!(should_delegate(true, false));
    assert!(!should_delegate(true, true));
    assert!(!should_delegate(false, false));
}

#[test]
fn delegate_args_shape() {
    let args = vec!["nico".to_string(), "-p".to_string(), "/x".to_string(), "status".to_string()];
    let r = delegate_args(&"/x".to_string(), &"/bin/nico".to_string(), &args);
    assert_eq!(r, vec!["develop", "/x", "--command", "/bin/nico", "--ignore-project", "-p", "/x", "status"]);
    let r = delegate_args(&"/x".to_string(), &"/bin/nico".to_string(), &vec![]);
    assert_eq!(r.len(), 5);
}

#[test]
fn dependency_outcomes() {
    assert_eq!(dependency_status(true, Some(0)), DependencyStatus::Installed);
    assert_eq!(dependency_status(false, Some(127)), DependencyStatus::Missing);
    assert_eq!(dependency_status(false, None), DependencyStatus::Missing);
    assert_eq!(dependency_status(false, Some(2)), DependencyStatus::Broken(2));
    assert_eq!(Error::dependency("nix".to_string()), Error::MissingRuntimeDependency("nix".to_string()));
}

#[test]
fn shells() {
    let names: Vec<&str> = Shell::value_variants().iter().map(|s| s.name()).collect();
    assert_eq!(names, vec!["bash", "elvish", "fish", "powershell", "zsh"]);
    assert_eq!(Shell::default(), Shell::Bash);
}

#[test]
fn status_needs_project() {
    assert!(Operations::Status(StatusArgs {}).needs_project());
}

#[test]
fn error_messages() {
    assert_eq!(Error::dependency("git".to_string()).message(), "Missing runtime dependency: git");
    assert_eq!(Error::ConfigNotFound.message(), "Unable to find nico config in this or any parent folders.");
    assert_eq!(Error::InvalidUrl("x".to_string()).message(), "Not a repository URL: x");
}
