use vstd::prelude::*;
use vstd::string::*;

use crate::cli::InitArgs;
use crate::error::Error;
use crate::remote::GitRemote;

verus! {

/// The name of the configuration file at a project's root.
pub const CONFIG_FILE: &'static str = "nico.config.json";

/// The name of the generated build file at a project's root.
pub const BUILD_FILE: &'static str = "flake.nix";

/// What `init` was given; it does not change afterwards.
#[derive(Clone, Debug, PartialEq, Eq)]
pub struct InitConfig {
    pub description: String,
    pub nix: String,
    pub system: String,
    pub sops_url: String,
    pub comin_url: String,
}

/// An extra input of the build description.
#[derive(Clone, Debug, PartialEq, Eq)]
pub struct ExtraFlake {
    pub ident: String,
    pub url: String,
    pub follows: String,
}

/// The resources of a project. The remotes are keyed by name: no two of them
/// share one.
#[derive(Clone, Debug, PartialEq, Eq)]
pub struct Resources {
    pub extra_flakes: Vec<ExtraFlake>,
    pub dev_packages: Vec<String>,
    pub remotes: Vec<GitRemote>,
}

/// No two remotes of `s` share a name.
pub open spec fn names_unique(s: Seq<GitRemote>) -> bool {
    forall|i: int, j: int| 0 <= i < j < s.len() ==> s[i].name@ != s[j].name@
}

/// The remotes of `s` by name; of two with one name the later one counts.
pub open spec fn remote_map(s: Seq<GitRemote>) -> Map<Seq<char>, GitRemote>
    decreases s.len(),
{
    if s.len() == 0 {
        Map::empty()
    } else {
        remote_map(s.drop_last()).insert(s.last().name@, s.last())
    }
}

proof fn lemma_remote_map_dom(s: Seq<GitRemote>, k: Seq<char>)
    ensures
        remote_map(s).contains_key(k) <==> exists|i: int| 0 <= i < s.len() && s[i].name@ == k,
    decreases s.len(),
{
    if s.len() > 0 {
        lemma_remote_map_dom(s.drop_last(), k);
        if remote_map(s.drop_last()).contains_key(k) {
            let i = choose|i: int| 0 <= i < s.drop_last().len() && s.drop_last()[i].name@ == k;
            assert(s[i].name@ == k);
        }
        if exists|i: int| 0 <= i < s.len() && s[i].name@ == k {
            let i = choose|i: int| 0 <= i < s.len() && s[i].name@ == k;
            if i < s.len() - 1 {
                assert(s.drop_last()[i].name@ == k);
            }
        }
    }
}

proof fn lemma_remote_map_update(s: Seq<GitRemote>, i: int, r: GitRemote)
    requires
        names_unique(s),
        0 <= i < s.len(),
        s[i].name@ == r.name@,
    ensures
        remote_map(s.update(i, r)) == remote_map(s).insert(r.name@, r),
    decreases s.len(),
{
    let t = s.update(i, r);
    if i == s.len() - 1 {
        assert(t.drop_last() =~= s.drop_last());
        assert(remote_map(t) =~= remote_map(s).insert(r.name@, r));
    } else {
        assert(t.drop_last() =~= s.drop_last().update(i, r));
        lemma_remote_map_update(s.drop_last(), i, r);
        assert(s.last().name@ != r.name@);
        assert(remote_map(t) =~= remote_map(s).insert(r.name@, r));
    }
}

proof fn lemma_remote_map_lookup(s: Seq<GitRemote>, i: int)
    requires
        names_unique(s),
        0 <= i < s.len(),
    ensures
        remote_map(s).contains_key(s[i].name@),
        remote_map(s)[s[i].name@] == s[i],
    decreases s.len(),
{
    if i < s.len() - 1 {
        lemma_remote_map_lookup(s.drop_last(), i);
        assert(s.drop_last()[i] == s[i]);
    }
}

/// Saving a configuration writes each remote once under its name; loading it
/// back adds those remotes in whatever order the file lists them. The remotes
/// by name come back as they were saved.
pub proof fn lemma_remotes_round_trip(saved: Seq<GitRemote>, loaded: Seq<GitRemote>)
    requires
        names_unique(saved),
        names_unique(loaded),
        saved.to_set() == loaded.to_set(),
    ensures
        remote_map(loaded) == remote_map(saved),
{
    assert forall|k: Seq<char>| #[trigger] remote_map(loaded).contains_key(k) implies
        remote_map(saved).contains_key(k) && remote_map(saved)[k] == remote_map(loaded)[k] by {
        lemma_remote_map_dom(loaded, k);
        let j = choose|j: int| 0 <= j < loaded.len() && loaded[j].name@ == k;
        assert(loaded.to_set().contains(loaded[j]));
        assert(saved.to_set().contains(loaded[j]));
        let i = choose|i: int| 0 <= i < saved.len() && saved[i] == loaded[j];
        lemma_remote_map_lookup(loaded, j);
        lemma_remote_map_lookup(saved, i);
    }
    assert forall|k: Seq<char>| #[trigger] remote_map(saved).contains_key(k) implies
        remote_map(loaded).contains_key(k) by {
        lemma_remote_map_dom(saved, k);
        let i = choose|i: int| 0 <= i < saved.len() && saved[i].name@ == k;
        assert(saved.to_set().contains(saved[i]));
        assert(loaded.to_set().contains(saved[i]));
        let j = choose|j: int| 0 <= j < loaded.len() && loaded[j] == saved[i];
        lemma_remote_map_lookup(loaded, j);
    }
    assert(remote_map(loaded) =~= remote_map(saved));
}

impl Resources {
    /// No two remotes share a name.
    pub open spec fn wf(&self) -> bool {
        names_unique(self.remotes@)
    }

    /// The remotes by name.
    pub open spec fn remote_view(&self) -> Map<Seq<char>, GitRemote> {
        remote_map(self.remotes@)
    }

    /// No extra inputs, no packages, no remotes.
    pub fn new() -> (r: Resources)
        ensures
            r.extra_flakes@.len() == 0,
            r.dev_packages@.len() == 0,
            r.remotes@.len() == 0,
            r.wf(),
    {
        Resources { extra_flakes: Vec::new(), dev_packages: Vec::new(), remotes: Vec::new() }
    }

    /// Adds a remote under its name, replacing the one of that name if there is one.
    pub fn insert_remote(&mut self, remote: GitRemote)
        requires
            old(self).wf(),
        ensures
            final(self).wf(),
            final(self).remote_view() == old(self).remote_view().insert(remote.name@, remote),
            final(self).extra_flakes == old(self).extra_flakes,
            final(self).dev_packages == old(self).dev_packages,
    {
        let mut i: usize = 0;
        while i < self.remotes.len()
            invariant
                i <= self.remotes@.len(),
                self.remotes == old(self).remotes,
                self.extra_flakes == old(self).extra_flakes,
                self.dev_packages == old(self).dev_packages,
                self.wf(),
                forall|j: int| 0 <= j < i ==> self.remotes@[j].name@ != remote.name@,
            decreases self.remotes@.len() - i,
        {
            if self.remotes[i].name == remote.name {
                proof {
                    lemma_remote_map_update(self.remotes@, i as int, remote);
                }
                self.remotes.set(i, remote);
                return;
            }
            i = i + 1;
        }
        proof {
            let s = self.remotes@;
            assert(s.push(remote).drop_last() =~= s);
            assert forall|a: int, b: int| 0 <= a < b < s.push(remote).len() implies
                s.push(remote)[a].name@ != s.push(remote)[b].name@ by {
                if b == s.len() {
                    assert(s[a].name@ != remote.name@);
                }
            }
        }
        self.remotes.push(remote);
    }
}

impl Default for Resources {
    fn default() -> (r: Resources)
        ensures
            r.extra_flakes@.len() == 0,
            r.dev_packages@.len() == 0,
            r.remotes@.len() == 0,
    {
        Resources::new()
    }
}

/// The durable record of a project: what it was initialized with and what
/// resources it has.
#[derive(Clone, Debug, PartialEq, Eq)]
pub struct Configuration {
    pub init: InitConfig,
    pub resources: Resources,
}

impl Configuration {
    pub open spec fn wf(&self) -> bool {
        self.resources.wf()
    }

    /// The configuration of a new project: the init fields as given, no extra
    /// inputs or packages, and the remotes keyed by name, where of two with one
    /// name the later one is kept.
    pub fn new(init: &InitArgs, remotes: Vec<GitRemote>) -> (r: Configuration)
        ensures
            r.wf(),
            r.init.description == init.description,
            r.init.nix == init.nix,
            r.init.system == init.system,
            r.init.sops_url == init.sops_url,
            r.init.comin_url == init.comin_url,
            r.resources.extra_flakes@.len() == 0,
            r.resources.dev_packages@.len() == 0,
            r.resources.remote_view() == remote_map(remotes@),
    {
        let mut resources = Resources::new();
        let mut remotes = remotes;
        let ghost all = remotes@;
        proof {
            assert(remote_map(all.subrange(0, 0)) =~= resources.remote_view());
        }
        let n = remotes.len();
        let mut i: usize = 0;
        while i < n
            invariant
                n == all.len(),
                i <= n,
                remotes@ == all.subrange(i as int, n as int),
                resources.wf(),
                resources.extra_flakes@.len() == 0,
                resources.dev_packages@.len() == 0,
                resources.remote_view() == remote_map(all.subrange(0, i as int)),
            decreases n - i,
        {
            let remote = remotes.remove(0);
            proof {
                assert(remotes@ =~= all.subrange(i + 1, n as int));
                assert(all.subrange(0, i + 1).drop_last() =~= all.subrange(0, i as int));
            }
            resources.insert_remote(remote);
            i = i + 1;
        }
        proof {
            assert(all.subrange(0, n as int) =~= all);
        }
        Configuration {
            init: InitConfig {
                description: init.description.clone(),
                nix: init.nix.clone(),
                system: init.system.clone(),
                sops_url: init.sops_url.clone(),
                comin_url: init.comin_url.clone(),
            },
            resources,
        }
    }
}

/// The first position at or after `i` where the configuration file is
/// present, the positions being a directory and then its ancestors in turn.
pub open spec fn first_present_from(present: Seq<bool>, i: int) -> Option<int>
    decreases present.len() - i,
{
    if i < 0 || i >= present.len() {
        None
    } else if present[i] {
        Some(i)
    } else {
        first_present_from(present, i + 1)
    }
}

/// Where the upward search stops: the nearest directory that holds the file.
pub open spec fn first_present(present: Seq<bool>) -> Option<int> {
    first_present_from(present, 0)
}

/// A position moved `by` places further along, if there is one.
pub open spec fn shifted(o: Option<int>, by: int) -> Option<int> {
    match o {
        Some(i) => Some(i + by),
        None => None,
    }
}

/// The upward search. `present[i]` tells whether the `i`-th directory on the
/// way up (the starting one first) holds the configuration file; the result
/// is the first that does, or `None` when the filesystem root is passed
/// without finding one.
pub fn locate_config(present: &Vec<bool>) -> (r: Option<usize>)
    ensures
        r matches Some(i) ==> first_present(present@) == Some(i as int),
        r is None ==> first_present(present@) is None,
{
    let mut i: usize = 0;
    while i < present.len()
        invariant
            i <= present@.len(),
            first_present(present@) == first_present_from(present@, i as int),
        decreases present@.len() - i,
    {
        if present[i] {
            return Some(i);
        }
        i = i + 1;
    }
    None
}

proof fn lemma_search_suffix(between: Seq<bool>, from_root: Seq<bool>, m: int)
    requires
        0 <= m <= from_root.len(),
    ensures
        first_present_from(between + from_root, between.len() + m)
            == shifted(first_present_from(from_root, m), between.len() as int),
    decreases from_root.len() - m,
{
    let s = between + from_root;
    if m < from_root.len() {
        assert(s[between.len() + m] == from_root[m]);
        lemma_search_suffix(between, from_root, m + 1);
    }
}

proof fn lemma_search_prefix(between: Seq<bool>, from_root: Seq<bool>, j: int)
    requires
        0 <= j <= between.len(),
        forall|i: int| 0 <= i < between.len() ==> !between[i],
    ensures
        first_present_from(between + from_root, j)
            == shifted(first_present(from_root), between.len() as int),
    decreases between.len() - j,
{
    let s = between + from_root;
    if j < between.len() {
        assert(s[j] == between[j]);
        lemma_search_prefix(between, from_root, j + 1);
    } else {
        lemma_search_suffix(between, from_root, 0);
    }
}

/// Searching upward from a directory nested any depth under a project root
/// stops at the same directory as searching from the root, provided no
/// directory on the way between them holds a configuration file. The
/// directories passed on the way are `between`; the root and its ancestors
/// are `from_root`, so the root's `k`-th ancestor is the nested search's
/// `between.len() + k`-th.
pub proof fn lemma_nested_search(between: Seq<bool>, from_root: Seq<bool>)
    requires
        forall|i: int| 0 <= i < between.len() ==> !between[i],
    ensures
        first_present(between + from_root) == shifted(first_present(from_root), between.len() as int),
{
    lemma_search_prefix(between, from_root, 0);
}

/// Where a configuration is read from when it is loaded from a given path.
#[derive(Clone, Copy, Debug, PartialEq, Eq, Structural)]
pub enum ConfigLocation {
    /// The path is a directory holding the configuration file.
    InDirectory,
    /// The path is the configuration file itself.
    AtPath,
}

/// Decides where a configuration is read from, given what the filesystem
/// says of the path: a directory holding the file, or a file of that very
/// name. Any other path is refused as invalid input.
pub fn config_location(
    is_dir: bool,
    dir_has_config: bool,
    is_file: bool,
    named_config: bool,
) -> (r: Result<ConfigLocation, Error>)
    ensures
        is_dir && dir_has_config ==> r == Ok::<ConfigLocation, Error>(ConfigLocation::InDirectory),
        !(is_dir && dir_has_config) && is_file && named_config
            ==> r == Ok::<ConfigLocation, Error>(ConfigLocation::AtPath),
        !(is_dir && dir_has_config) && !(is_file && named_config) ==> r matches Err(Error::Parsing(_)),
{
    if is_dir && dir_has_config {
        Ok(ConfigLocation::InDirectory)
    } else if is_file && named_config {
        Ok(ConfigLocation::AtPath)
    } else {
        Err(Error::Parsing(String::from_str(
            "Configuration path must be a project directory or its configuration file.",
        )))
    }
}

} // verus!
