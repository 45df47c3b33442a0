//! The workspace: the directory in which an agent keeps the artifacts of
//! its tasks, and the paths of those artifacts.

use crate::task::{artifact_stem, file_name, language_of, AipaView, Language, Task, TaskView, AIPA};
use crate::text::{has_at, starts_at, to_chars};
use vstd::prelude::*;
use vstd::string::StringExecFns;

verus! {

/// The path of the entry `name` in the directory `dir`.
pub open spec fn joined(dir: Seq<char>, name: Seq<char>) -> Seq<char> {
    dir + "/"@ + name
}

/// The workspace of the user whose home directory is `home`.
pub open spec fn workspace_of(home: Seq<char>) -> Seq<char> {
    joined(home, "aipa_projects"@)
}

/// Where the source artifact of a task lies.
pub open spec fn source_path(agent: AipaView, task: TaskView) -> Seq<char> {
    joined(agent.project_dir, file_name(task))
}

/// Where a native compiler is told to put the program of a task.
pub open spec fn binary_path(agent: AipaView, task: TaskView) -> Seq<char> {
    joined(agent.project_dir, artifact_stem(task.goal))
}

/// Where the bytecode compiler leaves the class of the generated entry
/// point.
pub open spec fn class_path(agent: AipaView) -> Seq<char> {
    joined(agent.project_dir, "project_print_hello.class"@)
}

/// Whether a file of this name is bytecode of the generated entry point:
/// the name begins with the entry point's identifier and ends in `.class`,
/// the two not overlapping.
pub open spec fn class_artifact(name: Seq<char>) -> bool {
    let prefix = "project_print_hello"@;
    let suffix = ".class"@;
    &&& prefix.len() + suffix.len() <= name.len()
    &&& has_at(name, 0, prefix)
    &&& has_at(name, name.len() - suffix.len(), suffix)
}

/// The files that are removed, where they exist, when a task is over.
pub open spec fn cleanup_paths(agent: AipaView, task: TaskView) -> Seq<Seq<char>> {
    seq![source_path(agent, task), binary_path(agent, task)]
}

/// The paths of those among the first `n` of the workspace's `entries`
/// that are bytecode of the generated entry point, in their order.
pub open spec fn swept(agent: AipaView, entries: Seq<Seq<char>>, n: int) -> Seq<Seq<char>>
    decreases n,
{
    if n <= 0 || n > entries.len() {
        Seq::empty()
    } else if class_artifact(entries[n - 1]) {
        swept(agent, entries, n - 1).push(joined(agent.project_dir, entries[n - 1]))
    } else {
        swept(agent, entries, n - 1)
    }
}

/// All that is removed when a task is over, given the names of the files
/// in the workspace: the source, the program compiled from it and, for the
/// bytecode language, every class of the generated entry point.
pub open spec fn cleanup_plan(
    agent: AipaView,
    task: TaskView,
    entries: Seq<Seq<char>>,
) -> Seq<Seq<char>> {
    if language_of(task.language) == Language::Java {
        cleanup_paths(agent, task) + swept(agent, entries, entries.len() as int)
    } else {
        cleanup_paths(agent, task)
    }
}

/// The texts of a sequence of strings.
pub open spec fn texts(v: Seq<String>) -> Seq<Seq<char>> {
    Seq::new(v.len(), |i: int| v[i]@)
}

/// Why no agent could be set up.
#[derive(Clone, Copy, Debug, PartialEq, Eq, Structural)]
pub enum SetupError {
    /// The user's home directory is not known.
    HomeNotFound,
}

impl SetupError {
    pub fn message(&self) -> (text: String)
        ensures
            text@ == "Could not find home directory"@,
    {
        String::from_str("Could not find home directory")
    }
}

/// Asks `dirs::home_dir` for the user's home directory and hands it on as
/// text. The answer depends on the environment and on the user database,
/// so nothing is claimed of it.
#[verifier::external_body]
fn home_directory() -> (home: Option<String>) {
    match dirs::home_dir() {
        Some(path) => Some(path.to_string_lossy().into_owned()),
        None => None,
    }
}

/// The path of `name` in `dir`.
pub fn join(dir: &str, name: &str) -> (path: String)
    ensures
        path@ == joined(dir@, name@),
{
    let mut path = String::from_str(dir);
    path.append("/");
    path.append(name);
    path
}

/// Whether a file named `name` is bytecode of the generated entry point.
pub fn is_class_artifact(name: &str) -> (r: bool)
    ensures
        r == class_artifact(name@),
{
    let v = to_chars(name);
    let prefix = to_chars("project_print_hello");
    let suffix = to_chars(".class");
    if prefix.len() > v.len() || suffix.len() > v.len() - prefix.len() {
        return false;
    }
    starts_at(&v, 0, &prefix) && starts_at(&v, v.len() - suffix.len(), &suffix)
}

impl AIPA {
    /// An agent whose workspace is `root`.
    pub fn with_root(root: String, debug: bool) -> (agent: AIPA)
        ensures
            agent@ == (AipaView { project_dir: root@, debug }),
    {
        AIPA { project_dir: root, debug }
    }

    /// An agent for the user whose home directory is `home`; none where no
    /// home directory is known.
    pub fn at_home(home: Option<String>, debug: bool) -> (r: Result<AIPA, SetupError>)
        ensures
            match home {
                Some(h) => r is Ok && r->Ok_0@ == (AipaView {
                    project_dir: workspace_of(h@),
                    debug,
                }),
                None => r == Err::<AIPA, SetupError>(SetupError::HomeNotFound),
            },
    {
        match home {
            Some(h) => Ok(AIPA { project_dir: join(h.as_str(), "aipa_projects"), debug }),
            None => Err(SetupError::HomeNotFound),
        }
    }

    /// An agent for the current user. Whether a home directory is found is
    /// for the environment to say; where one is, the workspace lies in it.
    pub fn new(debug: bool) -> (r: Result<AIPA, SetupError>)
        ensures
            match r {
                Ok(agent) => agent.debug == debug && exists|home: Seq<char>|
                    agent.project_dir@ == workspace_of(home),
                Err(e) => e == SetupError::HomeNotFound,
            },
    {
        let home = home_directory();
        let ghost shown = if home is Some {
            home->Some_0@
        } else {
            Seq::empty()
        };
        let r = AIPA::at_home(home, debug);
        proof {
            if r is Ok {
                assert(r->Ok_0.project_dir@ == workspace_of(shown));
            }
        }
        r
    }

    /// Where the source artifact of `task` lies. The path depends on the
    /// workspace and the task alone.
    pub fn resolve_source_path(&self, task: &Task) -> (path: String)
        ensures
            path@ == source_path(self@, task@),
    {
        let name = self.get_filename(task);
        join(self.project_dir.as_str(), name.as_str())
    }

    /// Where a native compiler is told to put the program of `task`.
    pub fn resolve_binary_path(&self, task: &Task) -> (path: String)
        ensures
            path@ == binary_path(self@, task@),
    {
        let name = task.stem();
        join(self.project_dir.as_str(), name.as_str())
    }

    /// Where the bytecode compiler leaves the generated entry point.
    pub fn resolve_class_path(&self) -> (path: String)
        ensures
            path@ == class_path(self@),
    {
        join(self.project_dir.as_str(), "project_print_hello.class")
    }

    /// The files to remove, where they exist, when `task` is over: its
    /// source and the program compiled from it.
    pub fn cleanup_targets(&self, task: &Task) -> (paths: Vec<String>)
        ensures
            texts(paths@) == cleanup_paths(self@, task@),
    {
        let mut paths: Vec<String> = Vec::new();
        paths.push(self.resolve_source_path(task));
        paths.push(self.resolve_binary_path(task));
        assert(texts(paths@) =~= cleanup_paths(self@, task@));
        paths
    }

    /// The files to remove, where they exist, when `task` is over, given
    /// the names of the files that lie in the workspace. The names are
    /// looked at only for the bytecode language.
    pub fn cleanup(&self, task: &Task, entries: &Vec<String>) -> (paths: Vec<String>)
        ensures
            texts(paths@) == cleanup_plan(self@, task@, texts(entries@)),
    {
        let mut paths = self.cleanup_targets(task);
        if self.sweeps_classes(task) {
            let ghost fixed = texts(paths@);
            let mut i: usize = 0;
            while i < entries.len()
                invariant
                    i <= entries.len(),
                    texts(paths@) == fixed + swept(self@, texts(entries@), i as int),
                decreases entries.len() - i,
            {
                assert(texts(entries@)[i as int] == entries@[i as int]@);
                if is_class_artifact(entries[i].as_str()) {
                    let ghost before = texts(paths@);
                    let path = join(self.project_dir.as_str(), entries[i].as_str());
                    paths.push(path);
                    assert(texts(paths@) =~= before.push(path@));
                }
                i = i + 1;
                assert(texts(paths@) =~= fixed + swept(self@, texts(entries@), i as int));
            }
        }
        paths
    }

    /// Whether the workspace is also searched for bytecode when `task` is
    /// over: only the bytecode language leaves any.
    pub fn sweeps_classes(&self, task: &Task) -> (r: bool)
        ensures
            r == (language_of(task@.language) == Language::Java),
    {
        match Language::of(task.language.as_str()) {
            Language::Java => true,
            _ => false,
        }
    }
}

/// Asking twice for the source path of one task gives one path.
pub proof fn lemma_source_path_stable(agent: AIPA, first: Task, second: Task)
    requires
        first@ == second@,
    ensures
        source_path(agent@, first@) == source_path(agent@, second@),
        binary_path(agent@, first@) == binary_path(agent@, second@),
{
}

/// The class that the bytecode compiler leaves for the generated entry
/// point bears a name that the sweep recognises.
pub proof fn lemma_entry_class_is_artifact()
    ensures
        class_artifact("project_print_hello.class"@),
{
    reveal_strlit("project_print_hello.class");
    reveal_strlit("project_print_hello");
    reveal_strlit(".class");
    let name = "project_print_hello.class"@;
    assert(name.subrange(0, 19) =~= "project_print_hello"@);
    assert(name.subrange(19, 25) =~= ".class"@);
}

/// Every entry that is bytecode of the generated entry point has its path
/// among those that are swept.
pub proof fn lemma_swept_holds(agent: AipaView, entries: Seq<Seq<char>>, n: int, k: int)
    requires
        0 <= k < n <= entries.len(),
        class_artifact(entries[k]),
    ensures
        swept(agent, entries, n).contains(joined(agent.project_dir, entries[k])),
    decreases n,
{
    let rest = swept(agent, entries, n - 1);
    let wanted = joined(agent.project_dir, entries[k]);
    if k == n - 1 {
        assert(rest.push(wanted)[rest.len() as int] == wanted);
    } else {
        lemma_swept_holds(agent, entries, n - 1, k);
        let at = choose|at: int| 0 <= at < rest.len() && rest[at] == wanted;
        assert(swept(agent, entries, n)[at] == wanted);
    }
}

/// Whatever a task leaves in the workspace is on the list of what is
/// removed when the task is over: its source, the program a native
/// compiler was told to write and, for the bytecode language, the class of
/// the generated entry point where it is among the workspace's entries.
pub proof fn lemma_cleanup_covers_artifacts(
    agent: AipaView,
    task: TaskView,
    entries: Seq<Seq<char>>,
)
    ensures
        cleanup_plan(agent, task, entries).contains(source_path(agent, task)),
        cleanup_plan(agent, task, entries).contains(binary_path(agent, task)),
        language_of(task.language) == Language::Java && entries.contains(
            "project_print_hello.class"@,
        ) ==> cleanup_plan(agent, task, entries).contains(class_path(agent)),
{
    let fixed = cleanup_paths(agent, task);
    let plan = cleanup_plan(agent, task, entries);
    assert(fixed[0] == source_path(agent, task));
    assert(fixed[1] == binary_path(agent, task));
    assert(plan[0] == source_path(agent, task));
    assert(plan[1] == binary_path(agent, task));
    if language_of(task.language) == Language::Java && entries.contains(
        "project_print_hello.class"@,
    ) {
        let k = choose|k: int| 0 <= k < entries.len() && entries[k] == "project_print_hello.class"@;
        lemma_entry_class_is_artifact();
        lemma_swept_holds(agent, entries, entries.len() as int, k);
        let tail = swept(agent, entries, entries.len() as int);
        let at = choose|at: int| 0 <= at < tail.len() && tail[at] == class_path(agent);
        assert(plan[fixed.len() + at] == class_path(agent));
    }
}

} // verus!
