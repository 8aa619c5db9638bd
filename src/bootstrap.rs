use vstd::prelude::*;
use vstd::string::*;

use crate::cli::InitMode;
use crate::error::Error;
use crate::remote::{classify, has_default_policy, is_repository_url, GitRemote};

verus! {

/// What must happen to the target path before any repository work.
#[derive(Clone, Copy, Debug, PartialEq, Eq, Structural)]
pub enum TargetAction {
    /// The path is missing: create it and its missing ancestors.
    CreateDirectories,
    /// The path is an existing directory.
    UseExisting,
}

/// Decides on the target path from what the filesystem says of it. A path
/// that exists but is no directory is refused before anything is touched.
pub fn check_target(exists: bool, is_dir: bool) -> (r: Result<TargetAction, Error>)
    ensures
        exists && !is_dir ==> r matches Err(Error::Parsing(_)),
        !exists ==> r == Ok::<TargetAction, Error>(TargetAction::CreateDirectories),
        exists && is_dir ==> r == Ok::<TargetAction, Error>(TargetAction::UseExisting),
{
    if exists && !is_dir {
        Err(Error::Parsing(String::from_str("Initialization path must be a directory.")))
    } else if !exists {
        Ok(TargetAction::CreateDirectories)
    } else {
        Ok(TargetAction::UseExisting)
    }
}

/// The repository work that a mode calls for.
#[derive(Clone, Debug, PartialEq, Eq)]
pub enum RepoAction {
    /// Create a repository and give it an empty commit with no parent.
    InitWithEmptyCommit,
    /// Clone the repository at this URL, with its full history.
    Clone(String),
    /// Open the repository that is there and read its remotes.
    Open,
}

/// Decides the repository work from the mode and from whether the target
/// already holds repository metadata. Creating or cloning over an existing
/// repository is refused, and so is adopting where there is none; so is
/// cloning from a URL that does not name a repository. A refusal comes before
/// any repository work, so before any commit.
pub fn plan_repository(mode: &InitMode, has_repository: bool) -> (r: Result<RepoAction, Error>)
    ensures
        has_repository != (*mode is AdoptExisting) ==> r matches Err(Error::Parsing(_)),
        !has_repository && *mode is CreateLocal ==> r == Ok::<RepoAction, Error>(RepoAction::InitWithEmptyCommit),
        (!has_repository && *mode is CloneRemote && is_repository_url((mode->CloneRemote_0)@))
            ==> r == Ok::<RepoAction, Error>(RepoAction::Clone(mode->CloneRemote_0)),
        (!has_repository && *mode is CloneRemote && !is_repository_url((mode->CloneRemote_0)@))
            ==> (r matches Err(Error::InvalidUrl(m)) && m@ == (mode->CloneRemote_0)@),
        has_repository && *mode is AdoptExisting ==> r == Ok::<RepoAction, Error>(RepoAction::Open),
{
    match mode {
        InitMode::CreateLocal => {
            if has_repository {
                Err(Error::Parsing(String::from_str(
                    "Attempting to create a new local git repository, but the target directory already contains one.",
                )))
            } else {
                Ok(RepoAction::InitWithEmptyCommit)
            }
        },
        InitMode::CloneRemote(url) => {
            if has_repository {
                Err(Error::Parsing(String::from_str(
                    "Attempting to clone a git repository, but the target directory already contains one.",
                )))
            } else {
                match classify("origin", url.as_str()) {
                    Ok(_) => Ok(RepoAction::Clone(url.clone())),
                    Err(e) => Err(e),
                }
            }
        },
        InitMode::AdoptExisting => {
            if has_repository {
                Ok(RepoAction::Open)
            } else {
                Err(Error::Parsing(String::from_str(
                    "Target folder does not contain an existing git repository.",
                )))
            }
        },
    }
}

/// A remote as read from an existing repository. Each part is absent when it
/// could not be read.
#[derive(Clone, Debug, PartialEq, Eq)]
pub struct ObservedRemote {
    pub name: Option<String>,
    pub url: Option<String>,
    /// `None` when the default branch could not be resolved; `Some(None)`
    /// when it was resolved but its name is not valid text.
    pub default_branch: Option<Option<String>>,
}

/// A remote is adopted when its name, its URL and its default branch could
/// all be read.
pub open spec fn is_adoptable(o: ObservedRemote) -> bool {
    o.name is Some && o.url is Some && o.default_branch is Some
}

/// The main branch an adopted remote gets: its default branch, or `main`
/// when that branch has no readable name.
pub open spec fn adopted_branch(o: ObservedRemote) -> Seq<char> {
    match o.default_branch {
        Some(Some(b)) => b@,
        _ => "main"@,
    }
}

/// The observed remotes that are adopted, in order.
pub open spec fn adoptable(obs: Seq<ObservedRemote>) -> Seq<ObservedRemote> {
    obs.filter(|o: ObservedRemote| is_adoptable(o))
}

/// `r` is the remote adopted from `o`.
pub open spec fn adopted_from(r: GitRemote, o: ObservedRemote) -> bool {
    &&& r.name@ == (o.name->Some_0)@
    &&& r.url@ == (o.url->Some_0)@
    &&& r.main_branch@ == adopted_branch(o)
    &&& has_default_policy(r)
}

/// The remotes of an existing repository, best effort: a remote whose name,
/// URL or default branch cannot be read is left out, and the others keep
/// their order.
pub fn adopt_remotes(observed: &Vec<ObservedRemote>) -> (r: Vec<GitRemote>)
    ensures
        r@.len() == adoptable(observed@).len(),
        forall|i: int| 0 <= i < r@.len() ==> adopted_from(#[trigger] r@[i], adoptable(observed@)[i]),
{
    let mut out: Vec<GitRemote> = Vec::new();
    let mut i: usize = 0;
    while i < observed.len()
        invariant
            i <= observed@.len(),
            out@.len() == adoptable(observed@.subrange(0, i as int)).len(),
            forall|j: int| 0 <= j < out@.len() ==> adopted_from(#[trigger] out@[j], adoptable(observed@.subrange(0, i as int))[j]),
        decreases observed@.len() - i,
    {
        let o = &observed[i];
        proof {
            assert(observed@.subrange(0, i + 1) =~= observed@.subrange(0, i as int).push(observed@[i as int]));
            reveal(Seq::filter);
            assert(observed@.subrange(0, i + 1).drop_last() =~= observed@.subrange(0, i as int));
        }
        match (&o.name, &o.url, &o.default_branch) {
            (Some(name), Some(url), Some(branch)) => {
                let main: String = match branch {
                    Some(b) => b.clone(),
                    None => String::from_str("main"),
                };
                let remote = GitRemote::new(name.clone(), url.clone()).with_main_branch(main);
                out.push(remote);
            },
            _ => {},
        }
        i = i + 1;
    }
    assert(observed@.subrange(0, i as int) =~= observed@);
    out
}

/// The remote registered for a repository that was created or cloned: `local`
/// at the project root, or `origin` at the cloned URL. Nothing is registered
/// for an adopted repository here; its remotes are read from it.
pub fn created_remotes(action: &RepoAction, root: &String) -> (r: Vec<GitRemote>)
    ensures
        *action is InitWithEmptyCommit ==> r@.len() == 1 && r@[0].name@ == "local"@
            && r@[0].url@ == root@ && r@[0].main_branch@ == "main"@ && has_default_policy(r@[0]),
        *action is Clone ==> r@.len() == 1 && r@[0].name@ == "origin"@
            && r@[0].url@ == (action->Clone_0)@ && r@[0].main_branch@ == "main"@ && has_default_policy(r@[0]),
        *action is Open ==> r@.len() == 0,
{
    match action {
        RepoAction::InitWithEmptyCommit => vec![GitRemote::new(String::from_str("local"), root.clone())],
        RepoAction::Clone(url) => vec![GitRemote::new(String::from_str("origin"), url.clone())],
        RepoAction::Open => Vec::new(),
    }
}

} // verus!
