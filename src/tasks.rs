//! Task declarations, the project configuration, and the order in which a
//! task and its dependencies run.
use vstd::prelude::*;

use crate::error::{ConfigValidationError, Error};
use crate::fuzzy::{
    candidate_names, filter_matches, join_candidates, joined, keep_reaching, matches_of,
    sorted_by_similarity, MatchSpec,
};
use crate::install::views;
use crate::text::str_eq;
use crate::version::{VersionInfo, VersionedCommand};

verus! {

/// A named unit of work: a shell command, the tasks that run before it, an
/// optional working directory below the project root and extra environment.
#[derive(Debug, Clone)]
pub struct TaskConfig {
    pub command: String,
    pub dir: Option<String>,
    pub default: Option<bool>,
    pub depends: Vec<String>,
    pub description: Option<String>,
    pub env: Vec<(String, String)>,
}

impl TaskConfig {
    /// A task with `command` and nothing else set.
    pub fn new(command: String) -> (r: TaskConfig)
        ensures
            r.command == command,
            r.dir is None,
            r.default is None,
            r.depends@.len() == 0,
            r.description is None,
            r.env@.len() == 0,
    {
        TaskConfig {
            command,
            dir: None,
            default: None,
            depends: Vec::new(),
            description: None,
            env: Vec::new(),
        }
    }

    /// Checks that the command is not empty and that a directory, when
    /// given, is not empty either.
    pub fn validate(&self, task_name: &str) -> (r: Result<(), ConfigValidationError>)
        ensures
            match r {
                Ok(_) => self.command@.len() > 0 && (self.dir is Some ==> self.dir->0@.len() > 0),
                Err(ConfigValidationError::EmptyCommandError(n)) => self.command@.len() == 0
                    && n@ == task_name@,
                Err(ConfigValidationError::EmptyDirError(n)) => self.command@.len() > 0
                    && self.dir is Some && self.dir->0@.len() == 0 && n@ == task_name@,
            },
    {
        if self.command.unicode_len() == 0 {
            return Err(ConfigValidationError::EmptyCommandError(task_name.to_owned()));
        }
        if let Some(dir) = &self.dir {
            if dir.unicode_len() == 0 {
                return Err(ConfigValidationError::EmptyDirError(task_name.to_owned()));
            }
        }
        Ok(())
    }
}

/// The tasks and runtime pins of a project. Where two tasks share a name,
/// the first one counts.
#[derive(Debug, Clone)]
pub struct Config {
    pub tasks: Vec<(String, TaskConfig)>,
    pub versions: Vec<(VersionedCommand, VersionInfo)>,
}

/// The names of `tasks`, in order.
pub open spec fn task_names(tasks: Seq<(String, TaskConfig)>) -> Seq<Seq<char>> {
    tasks.map_values(|e: (String, TaskConfig)| e.0@)
}

/// `i` is the first position of a task called `name`.
pub open spec fn is_first(tasks: Seq<(String, TaskConfig)>, name: Seq<char>, i: int) -> bool {
    &&& 0 <= i < tasks.len()
    &&& tasks[i].0@ == name
    &&& forall|j: int| 0 <= j < i ==> tasks[j].0@ != name
}

/// The position of the task called `name`, or -1.
pub open spec fn task_index(tasks: Seq<(String, TaskConfig)>, name: Seq<char>) -> int {
    if exists|i: int| is_first(tasks, name, i) {
        choose|i: int| is_first(tasks, name, i)
    } else {
        -1
    }
}

pub proof fn lemma_first_unique(tasks: Seq<(String, TaskConfig)>, name: Seq<char>, i: int)
    requires
        is_first(tasks, name, i),
    ensures
        task_index(tasks, name) == i,
{
    let k = task_index(tasks, name);
    assert(is_first(tasks, name, k));
    if k < i {
        assert(tasks[k].0@ != name);
    }
    if i < k {
        assert(tasks[i].0@ != name);
    }
}

/// The dependencies of the task called `name`.
pub open spec fn deps_of(tasks: Seq<(String, TaskConfig)>, name: Seq<char>) -> Seq<Seq<char>> {
    views(tasks[task_index(tasks, name)].1.depends@)
}

/// Why no order of execution exists.
pub enum OrderFailure {
    /// A task of this name is not declared.
    Missing(Seq<char>),
    /// A task that lies on its own chain of dependencies.
    Cycle(Seq<char>),
}

/// How many declared names are not yet on `path`; it shrinks along every
/// dependency edge that does not close a cycle.
pub open spec fn unvisited(tasks: Seq<(String, TaskConfig)>, path: Seq<Seq<char>>) -> nat {
    task_names(tasks).to_set().difference(path.to_set()).len()
}

/// The tasks that run, in order, when `name` runs while the tasks of `path`
/// wait for their dependencies: each dependency's own order, in declaration
/// order, then `name` itself. A shared dependency runs once per path to it.
pub open spec fn run_order(
    tasks: Seq<(String, TaskConfig)>,
    name: Seq<char>,
    path: Seq<Seq<char>>,
) -> Result<Seq<Seq<char>>, OrderFailure>
    decreases unvisited(tasks, path), 0nat, 0nat,
{
    if task_index(tasks, name) < 0 {
        Err(OrderFailure::Missing(name))
    } else if path.contains(name) {
        Err(OrderFailure::Cycle(name))
    } else {
        proof {
            lemma_unvisited_decreases(tasks, name, path);
        }
        match deps_order(tasks, deps_of(tasks, name), 0, path.push(name)) {
            Ok(s) => Ok(s.push(name)),
            Err(e) => Err(e),
        }
    }
}

/// The concatenated orders of `deps[i..]`, each run under `path`.
pub open spec fn deps_order(
    tasks: Seq<(String, TaskConfig)>,
    deps: Seq<Seq<char>>,
    i: int,
    path: Seq<Seq<char>>,
) -> Result<Seq<Seq<char>>, OrderFailure>
    decreases unvisited(tasks, path), 1nat, (deps.len() - i) as nat,
{
    if i < 0 || i >= deps.len() {
        Ok(seq![])
    } else {
        match run_order(tasks, deps[i], path) {
            Err(e) => Err(e),
            Ok(a) => match deps_order(tasks, deps, i + 1, path) {
                Ok(b) => Ok(a + b),
                Err(e) => Err(e),
            },
        }
    }
}

pub proof fn lemma_unvisited_decreases(
    tasks: Seq<(String, TaskConfig)>,
    name: Seq<char>,
    path: Seq<Seq<char>>,
)
    requires
        task_index(tasks, name) >= 0,
        !path.contains(name),
    ensures
        unvisited(tasks, path.push(name)) < unvisited(tasks, path),
{
    let all = task_names(tasks).to_set();
    let i = task_index(tasks, name);
    assert(is_first(tasks, name, i));
    assert(task_names(tasks)[i] == name);
    assert(all.contains(name));
    assert forall|x: Seq<char>|
        #[trigger] path.push(name).to_set().contains(x) == path.to_set().insert(name).contains(x) by {
        if path.push(name).contains(x) {
            let k = choose|k: int| 0 <= k < path.len() + 1 && path.push(name)[k] == x;
            if k < path.len() {
                assert(path[k] == x);
            }
        }
        if path.contains(x) {
            let k = choose|k: int| 0 <= k < path.len() && path[k] == x;
            assert(path.push(name)[k] == x);
        }
        if x == name {
            assert(path.push(name)[path.len() as int] == name);
        }
    }
    assert(path.push(name).to_set() =~= path.to_set().insert(name));
    vstd::seq_lib::seq_to_set_is_finite(task_names(tasks));
    all.lemma_set_insert_diff_decreases(path.to_set(), name);
}

/// The similarity, in percent, a declared name needs to be suggested.
pub const SUGGESTION_PERCENT: u64 = 50;

/// The declared names similar enough to `name`, most similar first.
pub open spec fn suggestions(tasks: Seq<(String, TaskConfig)>, name: Seq<char>) -> Seq<MatchSpec> {
    keep_reaching(
        sorted_by_similarity(matches_of(name, task_names(tasks))),
        SUGGESTION_PERCENT as nat,
    )
}

/// `e` reports that no task is called `name`: with the similar names, if any.
pub open spec fn is_missing_error(tasks: Seq<(String, TaskConfig)>, name: Seq<char>, e: Error) -> bool {
    let found = suggestions(tasks, name);
    if found.len() == 0 {
        match e {
            Error::CommandNotFound(m) => m@ == name,
            _ => false,
        }
    } else {
        match e {
            Error::CommandNotFoundWithSuggestions(m, list) => m@ == name && list@ == joined(
                candidate_names(found),
            ),
            _ => false,
        }
    }
}

/// `e` is the error that reports `f`.
pub open spec fn reports(tasks: Seq<(String, TaskConfig)>, e: Error, f: OrderFailure) -> bool {
    match f {
        OrderFailure::Missing(n) => is_missing_error(tasks, n, e),
        OrderFailure::Cycle(n) => match e {
            Error::CyclicDependency(m) => m@ == n,
            _ => false,
        },
    }
}

/// `a` followed by the outcome `b`.
pub open spec fn then(a: Seq<Seq<char>>, b: Result<Seq<Seq<char>>, OrderFailure>) -> Result<
    Seq<Seq<char>>,
    OrderFailure,
> {
    match b {
        Ok(s) => Ok(a + s),
        Err(e) => Err(e),
    }
}

/// A copy of `path` with `name` appended.
fn extended(path: &Vec<String>, name: &str) -> (r: Vec<String>)
    ensures
        views(r@) == views(path@).push(name@),
{
    let mut r: Vec<String> = Vec::new();
    let mut i: usize = 0;
    while i < path.len()
        invariant
            i <= path@.len(),
            r@.len() == i,
            forall|k: int| 0 <= k < i ==> #[trigger] r@[k]@ == path@[k]@,
        decreases path.len() - i,
    {
        r.push(path[i].clone());
        i = i + 1;
    }
    r.push(name.to_owned());
    assert(views(r@) =~= views(path@).push(name@));
    r
}

/// Whether `name` is one of `v`.
fn contains_name(v: &Vec<String>, name: &str) -> (r: bool)
    ensures
        r == views(v@).contains(name@),
{
    let mut i: usize = 0;
    while i < v.len()
        invariant
            i <= v@.len(),
            forall|k: int| 0 <= k < i ==> v@[k]@ != name@,
        decreases v.len() - i,
    {
        if str_eq(v[i].as_str(), name) {
            assert(views(v@)[i as int] == name@);
            return true;
        }
        i = i + 1;
    }
    assert(!views(v@).contains(name@)) by {
        if views(v@).contains(name@) {
            let k = choose|k: int| 0 <= k < views(v@).len() && views(v@)[k] == name@;
            assert(v@[k]@ == name@);
        }
    }
    false
}

/// Every dependency of `t` is a declared task.
pub open spec fn deps_declared(tasks: Seq<(String, TaskConfig)>, t: TaskConfig) -> bool {
    forall|k: int| 0 <= k < t.depends@.len() ==> task_index(tasks, #[trigger] t.depends@[k]@) >= 0
}

/// No two tasks share a name.
pub open spec fn names_unique(tasks: Seq<(String, TaskConfig)>) -> bool {
    forall|i: int, j: int| 0 <= i < j < tasks.len() ==> tasks[i].0@ != tasks[j].0@
}

/// The task at position `i` is usable: the first of its name, a command, a non-empty directory if
/// any, and declared dependencies.
pub open spec fn task_sound(tasks: Seq<(String, TaskConfig)>, i: int) -> bool {
    let t = tasks[i].1;
    &&& task_index(tasks, tasks[i].0@) == i
    &&& t.command@.len() > 0
    &&& (t.dir is Some ==> t.dir->0@.len() > 0)
    &&& deps_declared(tasks, t)
}

/// `e` reports what is wrong with the task at position `i`: a name taken by
/// an earlier task, else an empty command, else an empty directory, else its
/// first undeclared dependency.
pub open spec fn reports_unsound(tasks: Seq<(String, TaskConfig)>, i: int, e: Error) -> bool {
    let name = tasks[i].0@;
    let t = tasks[i].1;
    if task_index(tasks, name) != i {
        match e {
            Error::DuplicateTask(n) => n@ == name,
            _ => false,
        }
    } else if t.command@.len() == 0 {
        match e {
            Error::ConfigValidationError(ConfigValidationError::EmptyCommandError(n)) => n@ == name,
            _ => false,
        }
    } else if t.dir is Some && t.dir->0@.len() == 0 {
        match e {
            Error::ConfigValidationError(ConfigValidationError::EmptyDirError(n)) => n@ == name,
            _ => false,
        }
    } else {
        match e {
            Error::CommandNotFound(d) => exists|k: int|
                0 <= k < t.depends@.len() && t.depends@[k]@ == d@ && task_index(tasks, d@) < 0
                    && forall|j: int|
                    0 <= j < k ==> task_index(tasks, #[trigger] t.depends@[j]@) >= 0,
            _ => false,
        }
    }
}

/// The pins of `versions` other than those of `kind`, in order.
pub open spec fn pins_without(
    versions: Seq<(VersionedCommand, VersionInfo)>,
    kind: VersionedCommand,
) -> Seq<(VersionedCommand, VersionInfo)>
    decreases versions.len(),
{
    if versions.len() == 0 {
        versions
    } else if versions.last().0 == kind {
        pins_without(versions.drop_last(), kind)
    } else {
        pins_without(versions.drop_last(), kind).push(versions.last())
    }
}

/// `versions` with `kind` pinned to `info`: Node pins come first and Python
/// pins last, so the order of pins (and of the composed `PATH`) does not
/// depend on the order they were read in.
pub open spec fn with_pin(
    versions: Seq<(VersionedCommand, VersionInfo)>,
    kind: VersionedCommand,
    info: VersionInfo,
) -> Seq<(VersionedCommand, VersionInfo)> {
    match kind {
        VersionedCommand::Node => seq![(kind, info)] + pins_without(versions, kind),
        VersionedCommand::Python => pins_without(versions, kind).push((kind, info)),
    }
}

/// The pins are one per runtime at most, Node before Python.
pub open spec fn pins_ordered(versions: Seq<(VersionedCommand, VersionInfo)>) -> bool {
    &&& versions.len() <= 2
    &&& versions.len() == 2 ==> versions[0].0 == VersionedCommand::Node && versions[1].0
        == VersionedCommand::Python
}

proof fn lemma_without_ordered(versions: Seq<(VersionedCommand, VersionInfo)>, kind: VersionedCommand)
    requires
        pins_ordered(versions),
    ensures
        pins_without(versions, kind).len() <= 1,
        pins_without(versions, kind).len() == 1 ==> pins_without(versions, kind)[0].0 != kind,
{
    let v = versions;
    reveal_with_fuel(pins_without, 3);
    if v.len() == 2 {
        let a = v.drop_last();
        assert(a.drop_last() =~= Seq::<(VersionedCommand, VersionInfo)>::empty());
        assert(a.last() == v[0]);
        assert(v.last() == v[1]);
    } else if v.len() == 1 {
        assert(v.drop_last() =~= Seq::<(VersionedCommand, VersionInfo)>::empty());
    }
}

/// Pinning keeps the pins ordered: at most one per runtime, Node before
/// Python, and the new pin is the one for its runtime.
pub proof fn lemma_pins_stay_ordered(
    versions: Seq<(VersionedCommand, VersionInfo)>,
    kind: VersionedCommand,
    info: VersionInfo,
)
    requires
        pins_ordered(versions),
    ensures
        pins_ordered(with_pin(versions, kind, info)),
        exists|i: int|
            0 <= i < with_pin(versions, kind, info).len() && with_pin(versions, kind, info)[i] == (
            kind,
            info,
        ),
{
    lemma_without_ordered(versions, kind);
    let w = with_pin(versions, kind, info);
    match kind {
        VersionedCommand::Node => {
            assert(w[0] == (kind, info));
        },
        VersionedCommand::Python => {
            assert(w[w.len() - 1] == (kind, info));
        },
    }
}

impl Config {
    /// Pins `kind` to `info`, replacing an earlier pin of the same runtime.
    pub fn pin_version(&mut self, kind: VersionedCommand, info: VersionInfo)
        ensures
            final(self).tasks == old(self).tasks,
            final(self).versions@ == with_pin(old(self).versions@, kind, info),
            pins_ordered(old(self).versions@) ==> pins_ordered(final(self).versions@),
    {
        proof {
            if pins_ordered(self.versions@) {
                lemma_pins_stay_ordered(self.versions@, kind, info);
            }
        }
        let mut kept: Vec<(VersionedCommand, VersionInfo)> = Vec::new();
        let mut i: usize = 0;
        let ghost old_versions = self.versions@;
        while i < self.versions.len()
            invariant
                i <= self.versions@.len(),
                self.versions@ == old_versions,
                kept@ == pins_without(old_versions.subrange(0, i as int), kind),
            decreases self.versions.len() - i,
        {
            let ghost done = old_versions.subrange(0, i as int);
            let ghost more = old_versions.subrange(0, i + 1);
            assert(more.drop_last() =~= done);
            if self.versions[i].0 != kind {
                kept.push((self.versions[i].0, self.versions[i].1.duplicate()));
            }
            i = i + 1;
        }
        assert(old_versions.subrange(0, old_versions.len() as int) =~= old_versions);
        match kind {
            VersionedCommand::Node => {
                kept.insert(0, (kind, info));
                assert(kept@ =~= with_pin(old_versions, kind, info));
            },
            VersionedCommand::Python => {
                kept.push((kind, info));
            },
        }
        self.versions = kept;
    }

    /// A configuration with no tasks and no pins.
    pub fn new() -> (r: Config)
        ensures
            r.tasks@.len() == 0,
            r.versions@.len() == 0,
            pins_ordered(r.versions@),
    {
        Config { tasks: Vec::new(), versions: Vec::new() }
    }

    /// The position of the task called `name`.
    pub fn task_position(&self, name: &str) -> (r: Option<usize>)
        ensures
            match r {
                Some(i) => task_index(self.tasks@, name@) == i as int && i < self.tasks@.len(),
                None => task_index(self.tasks@, name@) == -1,
            },
    {
        let mut i: usize = 0;
        while i < self.tasks.len()
            invariant
                i <= self.tasks@.len(),
                forall|j: int| 0 <= j < i ==> self.tasks@[j].0@ != name@,
            decreases self.tasks.len() - i,
        {
            if str_eq(self.tasks[i].0.as_str(), name) {
                proof {
                    lemma_first_unique(self.tasks@, name@, i as int);
                }
                return Some(i);
            }
            i = i + 1;
        }
        assert(!exists|k: int| is_first(self.tasks@, name@, k));
        None
    }

    /// Checks every task in order: its command and directory must not be
    /// empty and each of its dependencies must be declared. The first
    /// problem found is the error.
    pub fn validate_tasks(&self) -> (r: Result<(), Error>)
        ensures
            match r {
                Ok(_) => names_unique(self.tasks@) && forall|i: int|
                    0 <= i < self.tasks@.len() ==> task_sound(self.tasks@, i),
                Err(e) => exists|i: int|
                    0 <= i < self.tasks@.len() && !task_sound(self.tasks@, i) && reports_unsound(
                        self.tasks@,
                        i,
                        e,
                    ) && forall|j: int| 0 <= j < i ==> task_sound(self.tasks@, j),
            },
    {
        let mut i: usize = 0;
        while i < self.tasks.len()
            invariant
                i <= self.tasks@.len(),
                forall|j: int| 0 <= j < i ==> task_sound(self.tasks@, j),
            decreases self.tasks.len() - i,
        {
            let name = &self.tasks[i].0;
            let task = &self.tasks[i].1;
            let first = match self.task_position(name.as_str()) {
                Some(p) => p == i,
                None => false,
            };
            if !first {
                proof {
                    assert(!task_sound(self.tasks@, i as int));
                    assert(reports_unsound(self.tasks@, i as int, Error::DuplicateTask(*name)));
                }
                return Err(Error::DuplicateTask(name.clone()));
            }
            if let Err(e) = task.validate(name.as_str()) {
                let err = Error::ConfigValidationError(e);
                proof {
                    assert(!task_sound(self.tasks@, i as int));
                    assert(reports_unsound(self.tasks@, i as int, err));
                }
                return Err(err);
            }
            let mut k: usize = 0;
            while k < task.depends.len()
                invariant
                    i < self.tasks@.len(),
                    *task == self.tasks@[i as int].1,
                    task_index(self.tasks@, self.tasks@[i as int].0@) == i,
                    task.command@.len() > 0,
                    task.dir is Some ==> task.dir->0@.len() > 0,
                    k <= task.depends@.len(),
                    forall|j: int| 0 <= j < i ==> task_sound(self.tasks@, j),
                    forall|j: int|
                        0 <= j < k ==> task_index(self.tasks@, #[trigger] task.depends@[j]@) >= 0,
                decreases task.depends.len() - k,
            {
                let dep = &task.depends[k];
                if self.task_position(dep.as_str()).is_none() {
                    proof {
                        assert(!task_sound(self.tasks@, i as int));
                        assert(reports_unsound(
                            self.tasks@,
                            i as int,
                            Error::CommandNotFound(*dep),
                        ));
                    }
                    return Err(Error::CommandNotFound(dep.clone()));
                }
                k = k + 1;
            }
            i = i + 1;
        }
        proof {
            assert forall|a: int, b: int| 0 <= a < b < self.tasks@.len() implies self.tasks@[a].0@
                != self.tasks@[b].0@ by {
                assert(task_sound(self.tasks@, b));
                let n = self.tasks@[b].0@;
                assert(exists|k: int| is_first(self.tasks@, n, k));
                assert(is_first(self.tasks@, n, task_index(self.tasks@, n)));
            }
        }
        Ok(())
    }

    /// The declared task names, in order.
    pub fn task_names(&self) -> (r: Vec<String>)
        ensures
            views(r@) == task_names(self.tasks@),
    {
        let mut r: Vec<String> = Vec::new();
        let mut i: usize = 0;
        while i < self.tasks.len()
            invariant
                i <= self.tasks@.len(),
                r@.len() == i,
                forall|k: int| 0 <= k < i ==> #[trigger] r@[k]@ == self.tasks@[k].0@,
            decreases self.tasks.len() - i,
        {
            r.push(self.tasks[i].0.clone());
            i = i + 1;
        }
        assert(views(r@) =~= task_names(self.tasks@));
        r
    }

    /// The error for a task name that is not declared, suggesting the
    /// declared names that are similar enough.
    pub fn missing_task(&self, name: &str) -> (e: Error)
        ensures
            is_missing_error(self.tasks@, name@, e),
    {
        let names = self.task_names();
        let found = filter_matches(name, &names, SUGGESTION_PERCENT);
        if found.len() == 0 {
            Error::CommandNotFound(name.to_owned())
        } else {
            Error::CommandNotFoundWithSuggestions(name.to_owned(), join_candidates(&found))
        }
    }

    /// Appends to `out` the tasks that run when `name` runs while the tasks
    /// of `path` wait for their dependencies.
    fn collect_order(&self, name: &str, path: &Vec<String>, out: &mut Vec<String>) -> (r: Result<
        (),
        Error,
    >)
        ensures
            match run_order(self.tasks@, name@, views(path@)) {
                Ok(s) => r is Ok && views(final(out)@) == views(old(out)@) + s,
                Err(f) => r is Err && reports(self.tasks@, r->Err_0, f),
            },
        decreases unvisited(self.tasks@, views(path@)), 0nat, 0nat,
    {
        let idx = match self.task_position(name) {
            Some(i) => i,
            None => {
                return Err(self.missing_task(name));
            },
        };
        if contains_name(path, name) {
            return Err(Error::CyclicDependency(name.to_owned()));
        }
        let ghost tasks = self.tasks@;
        let ghost inner_path = views(path@).push(name@);
        let deps = &self.tasks[idx].1.depends;
        let ghost d = views(deps@);
        assert(d == deps_of(tasks, name@));
        let inner = extended(path, name);
        proof {
            lemma_unvisited_decreases(tasks, name@, views(path@));
        }
        let ghost start = views(out@);
        let mut i: usize = 0;
        while i < deps.len()
            invariant
                i <= deps@.len(),
                d == views(deps@),
                views(inner@) == inner_path,
                inner_path == views(path@).push(name@),
                tasks == self.tasks@,
                task_index(tasks, name@) >= 0,
                !views(path@).contains(name@),
                d == deps_of(tasks, name@),
                unvisited(tasks, inner_path) < unvisited(tasks, views(path@)),
                deps_order(tasks, d, 0, inner_path) == then(
                    views(out@).subrange(start.len() as int, views(out@).len() as int),
                    deps_order(tasks, d, i as int, inner_path),
                ),
                start.len() <= views(out@).len(),
                views(out@).subrange(0, start.len() as int) == start,
            decreases deps.len() - i,
        {
            let ghost before = views(out@);
            let ghost acc = before.subrange(start.len() as int, before.len() as int);
            let res = self.collect_order(deps[i].as_str(), &inner, out);
            match res {
                Ok(()) => {
                    proof {
                        let a = run_order(tasks, d[i as int], inner_path)->Ok_0;
                        let after = views(out@);
                        assert(after == before + a);
                        assert(after.subrange(start.len() as int, after.len() as int) =~= acc + a);
                        assert(after.subrange(0, start.len() as int) =~= start) by {
                            assert(after.subrange(0, start.len() as int) =~= before.subrange(
                                0,
                                start.len() as int,
                            ));
                        }
                        match deps_order(tasks, d, i + 1, inner_path) {
                            Ok(b) => {
                                assert(acc + (a + b) =~= (acc + a) + b);
                            },
                            Err(_) => {},
                        }
                    }
                },
                Err(e) => {
                    proof {
                        let f = run_order(tasks, d[i as int], inner_path)->Err_0;
                        assert(deps_order(tasks, d, i as int, inner_path) == Err::<
                            Seq<Seq<char>>,
                            OrderFailure,
                        >(f));
                        assert(deps_order(tasks, d, 0, inner_path) == Err::<
                            Seq<Seq<char>>,
                            OrderFailure,
                        >(f));
                        assert(run_order(tasks, name@, views(path@)) == Err::<
                            Seq<Seq<char>>,
                            OrderFailure,
                        >(f));
                    }
                    return Err(e);
                },
            }
            i = i + 1;
        }
        let ghost acc = views(out@).subrange(start.len() as int, views(out@).len() as int);
        out.push(name.to_owned());
        proof {
            let after = views(out@);
            assert(deps_order(tasks, d, 0, inner_path) == Ok::<Seq<Seq<char>>, OrderFailure>(
                acc + seq![],
            ));
            assert(acc + seq![] =~= acc);
            assert(after =~= start + acc.push(name@)) by {
                assert(views(out@).drop_last() =~= start + acc);
            }
        }
        Ok(())
    }

    /// The tasks that run, in order, when `name` runs: its dependencies'
    /// orders, then `name` itself. An undeclared name or a dependency cycle
    /// is an error, found before anything runs.
    pub fn execution_order(&self, name: &str) -> (r: Result<Vec<String>, Error>)
        ensures
            match run_order(self.tasks@, name@, seq![]) {
                Ok(s) => r is Ok && views(r->Ok_0@) == s,
                Err(f) => r is Err && reports(self.tasks@, r->Err_0, f),
            },
    {
        let mut out: Vec<String> = Vec::new();
        let path: Vec<String> = Vec::new();
        assert(views(path@) =~= seq![]);
        assert(views(out@) =~= seq![]);
        match self.collect_order(name, &path, &mut out) {
            Ok(()) => {
                proof {
                    let s = run_order(self.tasks@, name@, seq![])->Ok_0;
                    assert(seq![] + s =~= s);
                }
                Ok(out)
            },
            Err(e) => Err(e),
        }
    }
}

} // verus!
