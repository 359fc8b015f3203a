//! Running a task: the order of execution is fixed up front, then the
//! caller executes one task at a time and reports whether it succeeded.
//! The first failure stops the run.
use vstd::prelude::*;

use crate::error::Error;
use crate::install::views;
use crate::tasks::{
    deps_of, deps_order, lemma_unvisited_decreases, reports, run_order, task_index, unvisited,
    Config, OrderFailure, TaskConfig,
};

verus! {

/// A run in progress over a fixed order of task names.
pub struct TaskRun {
    order: Vec<String>,
    next: usize,
    failed: bool,
}

/// The mathematical content of a [`TaskRun`].
pub struct TaskRunView {
    pub order: Seq<Seq<char>>,
    pub next: int,
    pub failed: bool,
}

impl View for TaskRun {
    type V = TaskRunView;

    closed spec fn view(&self) -> TaskRunView {
        TaskRunView { order: views(self.order@), next: self.next as int, failed: self.failed }
    }
}

/// A run of `order` that has not begun.
pub open spec fn run_start(order: Seq<Seq<char>>) -> TaskRunView {
    TaskRunView { order, next: 0, failed: false }
}

/// The task to execute now, if any.
pub open spec fn pending(v: TaskRunView) -> Option<Seq<char>> {
    if !v.failed && 0 <= v.next < v.order.len() {
        Some(v.order[v.next])
    } else {
        None
    }
}

/// An exit code that counts as success.
pub open spec fn exit_succeeded(code: Option<i32>) -> bool {
    code == Some(0i32)
}

/// The run after the pending task is reported to have `succeeded` or not.
pub open spec fn after_report(v: TaskRunView, succeeded: bool) -> TaskRunView {
    if pending(v) is None {
        v
    } else if succeeded {
        TaskRunView { next: v.next + 1, ..v }
    } else {
        TaskRunView { failed: true, ..v }
    }
}

impl TaskRun {
    pub closed spec fn wf(&self) -> bool {
        self.next <= self.order@.len()
    }

    /// A run of `order` from its first task.
    pub fn new(order: Vec<String>) -> (r: TaskRun)
        ensures
            r.wf(),
            r@ == run_start(views(order@)),
    {
        TaskRun { order, next: 0, failed: false }
    }

    /// The task to execute now; `None` once all ran or one failed.
    pub fn next_task(&self) -> (r: Option<&str>)
        requires
            self.wf(),
        ensures
            match r {
                Some(name) => pending(self@) == Some(name@),
                None => pending(self@) is None,
            },
    {
        if !self.failed && self.next < self.order.len() {
            Some(self.order[self.next].as_str())
        } else {
            None
        }
    }

    /// Reports whether the pending task succeeded.
    pub fn report(&mut self, succeeded: bool)
        requires
            old(self).wf(),
        ensures
            final(self).wf(),
            final(self)@ == after_report(old(self)@, succeeded),
    {
        if self.failed || self.next >= self.order.len() {
            return;
        }
        if succeeded {
            self.next = self.next + 1;
        } else {
            self.failed = true;
        }
    }

    /// Reports the exit code of the pending task's command (`None` when the
    /// process ended without one, e.g. by a signal). Only code 0 lets the run
    /// go on: a dependency that exits unsuccessfully stops it.
    pub fn report_exit(&mut self, code: Option<i32>)
        requires
            old(self).wf(),
        ensures
            final(self).wf(),
            final(self)@ == after_report(old(self)@, exit_succeeded(code)),
    {
        let succeeded = match code {
            Some(c) => c == 0,
            None => false,
        };
        self.report(succeeded);
    }

    /// Whether a task failed.
    pub fn failed(&self) -> (r: bool)
        ensures
            r == self@.failed,
    {
        self.failed
    }
}

/// `i` is the first position of a task marked as the default.
pub open spec fn is_first_default(tasks: Seq<(String, TaskConfig)>, i: int) -> bool {
    &&& 0 <= i < tasks.len()
    &&& tasks[i].1.default == Some(true)
    &&& forall|j: int| 0 <= j < i ==> tasks[j].1.default != Some(true)
}

/// The name of the first task marked as the default.
pub open spec fn default_name(tasks: Seq<(String, TaskConfig)>) -> Option<Seq<char>> {
    if exists|i: int| is_first_default(tasks, i) {
        Some(tasks[choose|i: int| is_first_default(tasks, i)].0@)
    } else {
        None
    }
}

/// The run that `run_order` yields, or the error that reports its failure.
pub open spec fn planned(
    tasks: Seq<(String, TaskConfig)>,
    r: Result<TaskRun, Error>,
    order: Result<Seq<Seq<char>>, OrderFailure>,
) -> bool {
    match order {
        Ok(s) => r is Ok && r->Ok_0.wf() && r->Ok_0@ == run_start(s),
        Err(f) => r is Err && reports(tasks, r->Err_0, f),
    }
}

/// Runs tasks of one configuration.
pub struct TaskRunner {
    pub config: Config,
}

impl TaskRunner {
    pub fn new(config: Config) -> (r: TaskRunner)
        ensures
            r.config == config,
    {
        TaskRunner { config }
    }

    /// The run of the task `name`: its dependencies first, then itself.
    pub fn run_command(&self, name: &str) -> (r: Result<TaskRun, Error>)
        ensures
            planned(self.config.tasks@, r, run_order(self.config.tasks@, name@, seq![])),
    {
        match self.config.execution_order(name) {
            Ok(order) => Ok(TaskRun::new(order)),
            Err(e) => Err(e),
        }
    }

    /// The name of the first task marked as the default.
    pub fn default_task_name(&self) -> (r: Result<String, Error>)
        ensures
            match default_name(self.config.tasks@) {
                Some(n) => r is Ok && r->Ok_0@ == n,
                None => r == Err::<String, Error>(Error::DefaultCommandNotFound),
            },
    {
        let tasks = &self.config.tasks;
        assert(tasks@ == self.config.tasks@);
        let mut i: usize = 0;
        while i < tasks.len()
            invariant
                i <= tasks@.len(),
                tasks@ == self.config.tasks@,
                forall|j: int| 0 <= j < i ==> tasks@[j].1.default != Some(true),
            decreases tasks.len() - i,
        {
            let marked = match tasks[i].1.default {
                Some(b) => b,
                None => false,
            };
            if marked {
                proof {
                    assert(is_first_default(tasks@, i as int));
                    let k = choose|k: int| is_first_default(tasks@, k);
                    if k < i {
                        assert(tasks@[k].1.default != Some(true));
                    }
                    if i < k {
                        assert(tasks@[i as int].1.default != Some(true));
                    }
                    assert(k == i);
                    assert(default_name(tasks@) == Some(tasks@[i as int].0@));
                }
                let name = tasks[i].0.as_str().to_owned();
                return Ok(name);
            }
            i = i + 1;
        }
        assert(!exists|k: int| is_first_default(tasks@, k));
        Err(Error::DefaultCommandNotFound)
    }

    /// The run of the default task.
    pub fn run_default(&self) -> (r: Result<TaskRun, Error>)
        ensures
            match default_name(self.config.tasks@) {
                Some(n) => planned(self.config.tasks@, r, run_order(self.config.tasks@, n, seq![])),
                None => r is Err && r->Err_0 == Error::DefaultCommandNotFound,
            },
    {
        match self.default_task_name() {
            Ok(name) => self.run_command(name.as_str()),
            Err(e) => Err(e),
        }
    }
}

/// A declared task without dependencies runs alone: its run executes
/// exactly one command, its own.
pub proof fn lemma_lone_task_runs_once(tasks: Seq<(String, TaskConfig)>, name: Seq<char>)
    requires
        task_index(tasks, name) >= 0,
        deps_of(tasks, name).len() == 0,
    ensures
        run_order(tasks, name, seq![]) == Ok::<Seq<Seq<char>>, OrderFailure>(seq![name]),
{
    assert(deps_order(tasks, deps_of(tasks, name), 0, seq![name]) == Ok::<
        Seq<Seq<char>>,
        OrderFailure,
    >(seq![]));
    assert(seq![].push(name) =~= seq![name]);
}

/// A task that depends on `a` then `b` runs all of `a`'s order, then all of
/// `b`'s order, then itself; if either order fails, so does the whole run,
/// and the task's own command is never reached.
pub proof fn lemma_dependencies_run_first(
    tasks: Seq<(String, TaskConfig)>,
    name: Seq<char>,
    a: Seq<char>,
    b: Seq<char>,
)
    requires
        task_index(tasks, name) >= 0,
        deps_of(tasks, name) == seq![a, b],
    ensures
        run_order(tasks, name, seq![]) is Ok ==> run_order(tasks, name, seq![]) == Ok::<
            Seq<Seq<char>>,
            OrderFailure,
        >(run_order(tasks, a, seq![])->Ok_0 + run_order(tasks, b, seq![])->Ok_0 + seq![name]),
        match (run_order(tasks, a, seq![name]), run_order(tasks, b, seq![name])) {
            (Ok(x), Ok(y)) => run_order(tasks, name, seq![]) == Ok::<
                Seq<Seq<char>>,
                OrderFailure,
            >(x + y + seq![name]),
            (Err(f), _) => run_order(tasks, name, seq![]) == Err::<Seq<Seq<char>>, OrderFailure>(f),
            (Ok(_), Err(f)) => run_order(tasks, name, seq![]) == Err::<Seq<Seq<char>>, OrderFailure>(
                f,
            ),
        },
{
    let d = seq![a, b];
    let p = seq![name];
    assert(seq![].push(name) =~= p);
    assert(deps_order(tasks, d, 2, p) == Ok::<Seq<Seq<char>>, OrderFailure>(seq![]));
    match (run_order(tasks, a, p), run_order(tasks, b, p)) {
        (Ok(x), Ok(y)) => {
            assert(Seq::<Seq<char>>::empty().to_set().subset_of(p.to_set()));
            lemma_order_path_free(tasks, a, p, seq![]);
            lemma_order_path_free(tasks, b, p, seq![]);
            assert(y + seq![] =~= y);
            assert(deps_order(tasks, d, 1, p) == Ok::<Seq<Seq<char>>, OrderFailure>(y));
            assert(deps_order(tasks, d, 0, p) == Ok::<Seq<Seq<char>>, OrderFailure>(x + y));
            assert((x + y).push(name) =~= x + y + seq![name]);
        },
        (Err(f), _) => {
            assert(deps_order(tasks, d, 0, p) == Err::<Seq<Seq<char>>, OrderFailure>(f));
        },
        (Ok(x), Err(f)) => {
            assert(deps_order(tasks, d, 1, p) == Err::<Seq<Seq<char>>, OrderFailure>(f));
            assert(deps_order(tasks, d, 0, p) == Err::<Seq<Seq<char>>, OrderFailure>(f));
        },
    }
}

proof fn lemma_push_subset(p: Seq<Seq<char>>, q: Seq<Seq<char>>, x: Seq<char>)
    requires
        q.to_set().subset_of(p.to_set()),
    ensures
        q.push(x).to_set().subset_of(p.push(x).to_set()),
{
    assert forall|y: Seq<char>| q.push(x).to_set().contains(y) implies p.push(x).to_set().contains(
        y,
    ) by {
        let k = choose|k: int| 0 <= k < q.push(x).len() && q.push(x)[k] == y;
        if k < q.len() {
            assert(q[k] == y);
            assert(q.to_set().contains(y));
            let j = choose|j: int| 0 <= j < p.len() && p[j] == y;
            assert(p.push(x)[j] == y);
        } else {
            assert(p.push(x)[p.len() as int] == y);
        }
    }
}

/// A successful order does not depend on which tasks wait above it: with
/// fewer waiting tasks the order is the same.
pub proof fn lemma_order_path_free(
    tasks: Seq<(String, TaskConfig)>,
    x: Seq<char>,
    p: Seq<Seq<char>>,
    q: Seq<Seq<char>>,
)
    requires
        run_order(tasks, x, p) is Ok,
        q.to_set().subset_of(p.to_set()),
    ensures
        run_order(tasks, x, q) == run_order(tasks, x, p),
    decreases unvisited(tasks, p), 0nat, 0nat,
{
    assert(task_index(tasks, x) >= 0);
    assert(!p.contains(x));
    if q.contains(x) {
        let k = choose|k: int| 0 <= k < q.len() && q[k] == x;
        assert(q.to_set().contains(x));
    }
    lemma_unvisited_decreases(tasks, x, p);
    lemma_push_subset(p, q, x);
    lemma_deps_path_free(tasks, deps_of(tasks, x), 0, p.push(x), q.push(x));
}

/// The dependency counterpart of [`lemma_order_path_free`].
pub proof fn lemma_deps_path_free(
    tasks: Seq<(String, TaskConfig)>,
    deps: Seq<Seq<char>>,
    i: int,
    p: Seq<Seq<char>>,
    q: Seq<Seq<char>>,
)
    requires
        deps_order(tasks, deps, i, p) is Ok,
        q.to_set().subset_of(p.to_set()),
    ensures
        deps_order(tasks, deps, i, q) == deps_order(tasks, deps, i, p),
    decreases unvisited(tasks, p), 1nat, (deps.len() - i) as nat,
{
    if 0 <= i < deps.len() {
        lemma_order_path_free(tasks, deps[i], p, q);
        lemma_deps_path_free(tasks, deps, i + 1, p, q);
    }
}

/// A task whose command exits unsuccessfully stops the run: nothing after
/// it, in particular not the task that depends on it, is handed out.
pub proof fn lemma_unsuccessful_exit_stops_run(v: TaskRunView, code: Option<i32>, later: bool)
    requires
        pending(v) is Some,
        !exit_succeeded(code),
    ensures
        pending(after_report(v, exit_succeeded(code))) is None,
        after_report(after_report(v, exit_succeeded(code)), later) == after_report(
            v,
            exit_succeeded(code),
        ),
{
}

/// After a reported failure the run hands out no further task, whatever is
/// reported next.
pub proof fn lemma_failure_stops_run(v: TaskRunView, later: bool)
    requires
        pending(v) is Some,
    ensures
        pending(after_report(v, false)) is None,
        after_report(after_report(v, false), later) == after_report(v, false),
{
}

} // verus!
