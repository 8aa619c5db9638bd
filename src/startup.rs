use vstd::prelude::*;
use vstd::string::*;

verus! {

/// The flag that marks a run started inside a project's development shell,
/// so that the run does not start another.
pub const IGNORE_PROJECT_FLAG: &'static str = "--ignore-project";

/// Whether a run hands itself over to the development shell of the project at
/// another path: only when such a path was given and this run was not itself
/// started by such a hand-over.
pub fn should_delegate(has_project: bool, ignore_project: bool) -> (r: bool)
    ensures
        r == (has_project && !ignore_project),
{
    has_project && !ignore_project
}

/// This run's own arguments, less the program name.
pub open spec fn passed_args(args: Seq<String>) -> Seq<String> {
    if args.len() == 0 {
        args
    } else {
        args.skip(1)
    }
}

/// The arguments for the build tool that re-runs this program inside the
/// development shell of `project`: `develop <project> --command <exe>
/// --ignore-project` followed by this run's own arguments, less the program
/// name.
pub fn delegate_args(project: &String, exe: &String, args: &Vec<String>) -> (r: Vec<String>)
    ensures
        r@.len() == 5 + passed_args(args@).len(),
        r@[0]@ == "develop"@,
        r@[1]@ == project@,
        r@[2]@ == "--command"@,
        r@[3]@ == exe@,
        r@[4]@ == IGNORE_PROJECT_FLAG@,
        r@.subrange(5, r@.len() as int) == passed_args(args@),
{
    let mut r: Vec<String> = vec![
        String::from_str("develop"),
        project.clone(),
        String::from_str("--command"),
        exe.clone(),
        String::from_str(IGNORE_PROJECT_FLAG),
    ];
    let mut i: usize = 1;
    while i < args.len()
        invariant
            1 <= i,
            args@.len() == 0 ==> i == 1,
            args@.len() > 0 ==> i <= args@.len(),
            r@.len() == 5 + i - 1,
            r@[0]@ == "develop"@,
            r@[1]@ == project@,
            r@[2]@ == "--command"@,
            r@[3]@ == exe@,
            r@[4]@ == IGNORE_PROJECT_FLAG@,
            forall|j: int| 5 <= j < r@.len() ==> #[trigger] r@[j] == args@[j - 4],
        decreases args@.len() - i,
    {
        r.push(args[i].clone());
        i = i + 1;
    }
    assert(r@.subrange(5, r@.len() as int) =~= passed_args(args@));
    r
}

/// What the probe of a required host program tells.
#[derive(Clone, Copy, Debug, PartialEq, Eq, Structural)]
pub enum DependencyStatus {
    /// It ran and succeeded.
    Installed,
    /// It could not be found (exit code 127, or no code at all).
    Missing,
    /// It is there but failed with this code: it is installed but broken.
    Broken(i32),
}

/// Judges the probe of a required host program from its outcome.
pub fn dependency_status(success: bool, code: Option<i32>) -> (r: DependencyStatus)
    ensures
        success ==> r == DependencyStatus::Installed,
        !success && (code is None || code == Some(127i32)) ==> r == DependencyStatus::Missing,
        (!success && code is Some && code->Some_0 != 127) ==> r == DependencyStatus::Broken(code->Some_0),
{
    if success {
        DependencyStatus::Installed
    } else {
        match code {
            None => DependencyStatus::Missing,
            Some(c) => {
                if c == 127 {
                    DependencyStatus::Missing
                } else {
                    DependencyStatus::Broken(c)
                }
            },
        }
    }
}

} // verus!
