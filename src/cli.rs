use vstd::prelude::*;

verus! {

/// How the repository of a new project comes about. At most one of the three
/// may be asked for; with none, the existing repository is adopted.
#[derive(Clone, Debug, PartialEq, Eq)]
pub struct InitGitArgs {
    /// Create a fresh local repository.
    pub local: bool,
    /// Clone the repository at this URL.
    pub clone: Option<String>,
    /// Adopt the repository already in the target directory.
    pub existing: bool,
}

/// What `init` was asked to do.
#[derive(Clone, Debug, PartialEq, Eq)]
pub struct InitArgs {
    /// Directory to initialize; the current one when absent.
    pub path: Option<String>,
    pub description: String,
    pub system: String,
    pub nix: String,
    pub sops_url: String,
    pub comin_url: String,
    pub git: InitGitArgs,
}

/// The one strategy that sets up the repository of a new project.
#[derive(Clone, Debug, PartialEq, Eq)]
pub enum InitMode {
    CreateLocal,
    CloneRemote(String),
    AdoptExisting,
}

impl InitGitArgs {
    /// The strategy these flags select.
    pub fn mode(&self) -> (r: InitMode)
        ensures
            self.local ==> r == InitMode::CreateLocal,
            !self.local && self.clone is Some ==> r == InitMode::CloneRemote(self.clone->Some_0),
            !self.local && self.clone is None ==> r == InitMode::AdoptExisting,
    {
        if self.local {
            InitMode::CreateLocal
        } else {
            match &self.clone {
                Some(url) => InitMode::CloneRemote(url.clone()),
                None => InitMode::AdoptExisting,
            }
        }
    }
}

/// The shells that completions can be generated for.
#[derive(Clone, Copy, Debug, PartialEq, Eq, Structural)]
pub enum Shell {
    Bash,
    Elvish,
    Fish,
    PowerShell,
    Zsh,
}

impl Default for Shell {
    fn default() -> (r: Shell)
        ensures
            r == Shell::Bash,
    {
        Shell::Bash
    }
}

impl Shell {
    /// Every shell, in the order they are offered.
    pub fn value_variants() -> (r: Vec<Shell>)
        ensures
            r@ == seq![Shell::Bash, Shell::Elvish, Shell::Fish, Shell::PowerShell, Shell::Zsh],
    {
        vec![Shell::Bash, Shell::Elvish, Shell::Fish, Shell::PowerShell, Shell::Zsh]
    }

    /// The name the shell goes by on the command line.
    pub fn name(&self) -> (r: &'static str)
        ensures
            *self == Shell::Bash ==> r@ == "bash"@,
            *self == Shell::Elvish ==> r@ == "elvish"@,
            *self == Shell::Fish ==> r@ == "fish"@,
            *self == Shell::PowerShell ==> r@ == "powershell"@,
            *self == Shell::Zsh ==> r@ == "zsh"@,
    {
        match self {
            Shell::Bash => "bash",
            Shell::Elvish => "elvish",
            Shell::Fish => "fish",
            Shell::PowerShell => "powershell",
            Shell::Zsh => "zsh",
        }
    }
}

#[derive(Clone, Debug, PartialEq, Eq)]
pub struct CompletionArgs {
    pub shell: Shell,
}

#[derive(Clone, Debug, PartialEq, Eq)]
pub struct StatusArgs {}

/// The subcommands.
#[derive(Clone, Debug, PartialEq, Eq)]
pub enum Operations {
    Init(InitArgs),
    Completions(CompletionArgs),
    Status(StatusArgs),
}

impl Operations {
    /// Whether the subcommand works on an existing project, whose
    /// configuration must then be found.
    pub fn needs_project(&self) -> (r: bool)
        ensures
            r == (self is Status),
    {
        match self {
            Operations::Status(_) => true,
            _ => false,
        }
    }
}

} // verus!
