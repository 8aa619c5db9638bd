use nico::bootstrap::{
    adopt_remotes, check_target, created_remotes, plan_repository, ObservedRemote, RepoAction, TargetAction,
};
use nico::cli::{InitArgs, InitGitArgs, InitMode};
use nico::config::{Configuration, Resources};
use nico::error::Error;

fn args(git: InitGitArgs) -> InitArgs {
    InitArgs {
        path: None,
        description: "Automatically generated config flake.".to_string(),
        system: "x86_64-linux".to_string(),
        nix: "unstable".to_string(),
        sops_url: "github:Mic92/sops-nix".to_string(),
        comin_url: "github:nlewo/comin".to_string(),
        git,
    }
}

fn observed(name: Option<&str>, url: Option<&str>, branch: Option<Option<&str>>) -> ObservedRemote {
    ObservedRemote {
        name: name.map(|s| s.to_string()),
        url: url.map(|s| s.to_string()),
        default_branch: branch.map(|b| b.map(|s| s.to_string())),
    }
}

#[test]
fn mode_selection() {
    let local = InitGitArgs { local: true, clone: None, existing: false };
    assert_eq!(local.mode(), InitMode::CreateLocal);
    let clone = InitGitArgs { local: false, clone: Some("https://h/r.git".to_string()), existing: false };
    assert_eq!(clone.mode(), InitMode::CloneRemote("https://h/r.git".to_string()));
    let none = InitGitArgs { local: false, clone: None, existing: false };
    assert_eq!(none.mode(), InitMode::AdoptExisting);
    let existing = InitGitArgs { local: false, clone: None, existing: true };
    assert_eq!(existing.mode(), InitMode::AdoptExisting);
}

#[test]
fn target_must_be_directory() {
    assert!(matches!(check_target(true, false), Err(Error::Parsing(_))));
    assert_eq!(check_target(false, false), Ok(TargetAction::CreateDirectories));
    assert_eq!(check_target(true, true), Ok(TargetAction::UseExisting));
}

#[test]
fn create_local_over_repository_fails() {
    assert!(matches!(plan_repository(&InitMode::CreateLocal, true), Err(Error::Parsing(_))));
    assert_eq!(plan_repository(&InitMode::CreateLocal, false), Ok(RepoAction::InitWithEmptyCommit));
}

#[test]
fn clone_over_repository_fails() {
    let mode = InitMode::CloneRemote("https://h/r.git".to_string());
    assert!(matches!(plan_repository(&mode, true), Err(Error::Parsing(_))));
    assert_eq!(plan_repository(&mode, false), Ok(RepoAction::Clone("https://h/r.git".to_string())));
}

#[test]
fn adopt_without_repository_fails() {
    assert!(matches!(plan_repository(&InitMode::AdoptExisting, false), Err(Error::Parsing(_))));
    assert_eq!(plan_repository(&InitMode::AdoptExisting, true), Ok(RepoAction::Open));
}

#[test]
fn adopt_skips_unreadable_remotes() {
    let obs = vec![
        observed(Some("origin"), Some("https://h/r.git"), Some(Some("trunk"))),
        observed(Some("mirror"), None, Some(Some("main"))),
        observed(None, Some("u"), Some(None)),
        observed(Some("backup"), Some("/srv/r.git"), None),
        observed(Some("odd"), Some("ssh://h/r.git"), Some(None)),
    ];
    let r = adopt_remotes(&obs);
    assert_eq!(r.len(), 2);
    assert_eq!(r[0].name, "origin");
    assert_eq!(r[0].url, "https://h/r.git");
    assert_eq!(r[0].main_branch, "trunk");
    assert_eq!(r[1].name, "odd");
    assert_eq!(r[1].main_branch, "main");
    assert_eq!(r[1].polling_period, 60);
}

#[test]
fn adopt_of_nothing_is_empty() {
    assert!(adopt_remotes(&vec![]).is_empty());
}

#[test]
fn create_local_scenario() {
    let git = InitGitArgs { local: true, clone: None, existing: false };
    let action = plan_repository(&git.mode(), false).unwrap();
    assert_eq!(action, RepoAction::InitWithEmptyCommit);
    let root = "/home/me/project".to_string();
    let remotes = created_remotes(&action, &root);
    assert_eq!(remotes.len(), 1);
    assert_eq!(remotes[0].name, "local");
    assert_eq!(remotes[0].url, root);
    let config = Configuration::new(&args(git), remotes);
    assert_eq!(config.resources.remotes.len(), 1);
    assert_eq!(config.resources.remotes[0].name, "local");
    assert_eq!(config.resources.remotes[0].url, "/home/me/project");
}

#[test]
fn clone_registers_origin() {
    let action = RepoAction::Clone("https://h/r.git".to_string());
    let remotes = created_remotes(&action, &"/p".to_string());
    assert_eq!(remotes.len(), 1);
    assert_eq!(remotes[0].name, "origin");
    assert_eq!(remotes[0].url, "https://h/r.git");
    assert!(created_remotes(&RepoAction::Open, &"/p".to_string()).is_empty());
}

#[test]
fn adopt_existing_scenario() {
    let git = InitGitArgs { local: false, clone: None, existing: true };
    assert_eq!(plan_repository(&git.mode(), true), Ok(RepoAction::Open));
    let obs = vec![
        observed(Some("origin"), Some("https://h/r.git"), Some(Some("main"))),
        observed(Some("broken"), None, None),
    ];
    let config = Configuration::new(&args(git), adopt_remotes(&obs));
    assert_eq!(config.resources.remotes.len(), 1);
    assert_eq!(config.resources.remotes[0].name, "origin");
}

#[test]
fn empty_resources() {
    let r = Resources::default();
    assert!(r.extra_flakes.is_empty() && r.dev_packages.is_empty() && r.remotes.is_empty());
}

#[test]
fn clone_from_malformed_url_fails() {
    let bad = InitMode::CloneRemote("https://host/repo".to_string());
    assert_eq!(plan_repository(&bad, false), Err(Error::InvalidUrl("https://host/repo".to_string())));
    let doubled = InitMode::CloneRemote("/srv/repo.git//".to_string());
    assert_eq!(plan_repository(&doubled, false), Err(Error::InvalidUrl("/srv/repo.git//".to_string())));
    let trailing = InitMode::CloneRemote("/srv/repo.git/".to_string());
    assert_eq!(plan_repository(&trailing, false), Ok(RepoAction::Clone("/srv/repo.git/".to_string())));
    assert!(matches!(plan_repository(&bad, true), Err(Error::Parsing(_))));
}
