//! The dispatcher: builds the worker registry from the `Worker` table of
//! the configuration, fail-fast, and routes a task record to the worker
//! it names.
use vstd::prelude::*;

use crate::error::{is_config_err, Error};
use crate::value::{tab_find, tab_model, table_get, ConfigValue, Table, ValModel};
use crate::worker::copy::CopyWorker;
use crate::worker::handlebars::{build_err_matches, build_store, templates_dir, templates_dir_of,
    BuildOutcome, Handlebars};
use crate::worker::{files_model, outs_model, run_matches, OutFile, Worker, WorkerModel};

verus! {

/// A task record: one declared build step, a table naming the worker to
/// run and carrying its options.
pub type Task = Table;

/// The dispatcher: the fully constructed worker registry, in the order
/// the configuration declared the workers.
#[derive(Debug, PartialEq, Eq)]
pub struct Blueprint {
    pub workers: Vec<(String, Worker)>,
}

/// The view of the registry: each worker's name and model, in order.
pub open spec fn workers_model(ws: Seq<(String, Worker)>) -> Seq<(Seq<char>, WorkerModel)>
    decreases ws,
{
    if ws.len() == 0 {
        Seq::empty()
    } else {
        workers_model(ws.drop_last()).push((ws.last().0@, ws.last().1.wmodel()))
    }
}

/// The registry model has one entry per worker, in order.
pub proof fn lemma_workers_model_index(s: Seq<(String, Worker)>)
    ensures
        workers_model(s).len() == s.len(),
        forall|k: int| 0 <= k < s.len() ==> workers_model(s)[k] == (s[k].0@, s[k].1.wmodel()),
    decreases s.len(),
{
    if s.len() > 0 {
        lemma_workers_model_index(s.drop_last());
        assert forall|k: int| 0 <= k < s.len() implies workers_model(s)[k] == (
            s[k].0@,
            s[k].1.wmodel(),
        ) by {
            if k < s.len() - 1 {
                assert(s.drop_last()[k] == s[k]);
            }
        }
    }
}

/// Looking a worker up by name: the first registered worker that
/// matches.
pub open spec fn worker_find(ws: Seq<(Seq<char>, WorkerModel)>, name: Seq<char>) -> Option<
    WorkerModel,
>
    decreases ws.len(),
{
    if ws.len() == 0 {
        None
    } else if ws[0].0 == name {
        Some(ws[0].1)
    } else {
        worker_find(ws.drop_first(), name)
    }
}

/// How building the registry ends: the loaded workers, or the first
/// failure — a missing or non-table `Worker` key, a non-table entry, an
/// unknown worker-type name, or a worker whose own construction failed.
pub enum LoadOutcome {
    Loaded(Seq<(Seq<char>, WorkerModel)>),
    NoWorkerTable,
    EntryNotTable,
    UnknownKind,
    BadWorker(BuildOutcome),
}

/// Prepends a loaded worker to the outcome of loading the rest.
pub open spec fn loaded_cons(
    name: Seq<char>,
    wm: WorkerModel,
    rest: LoadOutcome,
) -> LoadOutcome {
    match rest {
        LoadOutcome::Loaded(r) => LoadOutcome::Loaded(seq![(name, wm)] + r),
        other => other,
    }
}

/// Loads the workers declared from position `i` on.  Every entry must
/// be a table of options under a known worker-type name — `Handlebars`
/// or `Copy`, case-sensitive — and the first bad entry aborts the whole
/// build.
pub open spec fn load_from(
    w: Seq<(Seq<char>, ValModel)>,
    tf: Seq<(Seq<char>, Seq<char>)>,
    i: int,
) -> LoadOutcome
    decreases w.len() - i,
{
    if i < 0 || i >= w.len() {
        LoadOutcome::Loaded(Seq::empty())
    } else {
        match w[i].1 {
            ValModel::Table(_opts) => if w[i].0 == "Handlebars"@ {
                match build_store(tf) {
                    BuildOutcome::Built(store) => loaded_cons(
                        w[i].0,
                        WorkerModel::Templating(store),
                        load_from(w, tf, i + 1),
                    ),
                    bad => LoadOutcome::BadWorker(bad),
                }
            } else if w[i].0 == "Copy"@ {
                loaded_cons(w[i].0, WorkerModel::Copy, load_from(w, tf, i + 1))
            } else {
                LoadOutcome::UnknownKind
            },
            _ => LoadOutcome::EntryNotTable,
        }
    }
}

/// How building the registry from the configuration ends: the `Worker`
/// key must hold a table, whose entries are loaded in order.
pub open spec fn load_outcome(
    cfg: Seq<(Seq<char>, ValModel)>,
    tf: Seq<(Seq<char>, Seq<char>)>,
) -> LoadOutcome {
    match tab_find(cfg, "Worker"@) {
        Some(ValModel::Table(w)) => load_from(w, tf, 0),
        _ => LoadOutcome::NoWorkerTable,
    }
}

/// Whether `e` is the error a failed registry build surfaces.
pub open spec fn load_err_matches(o: LoadOutcome, e: Error) -> bool {
    match o {
        LoadOutcome::Loaded(_) => false,
        LoadOutcome::NoWorkerTable => is_config_err(e, "No `Worker` found in config."@),
        LoadOutcome::EntryNotTable => is_config_err(e, "Worker is not table"@),
        LoadOutcome::UnknownKind => is_config_err(e, "Worker is not known"@),
        LoadOutcome::BadWorker(b) => build_err_matches(b, e),
    }
}

/// Whether a dispatch result is what the registry prescribes for the
/// task: the task's `worker` field must hold the name of a registered
/// worker, which then runs, and each of the three lookup failures has
/// its own configuration error.
pub open spec fn task_matches(
    ws: Seq<(Seq<char>, WorkerModel)>,
    task: Seq<(Seq<char>, ValModel)>,
    files: Seq<(Seq<char>, Seq<char>)>,
    r: Result<Vec<OutFile>, Error>,
) -> bool {
    match tab_find(task, "worker"@) {
        None => r matches Err(e) && is_config_err(e, "Worker not specified."@),
        Some(ValModel::Str(wname)) => match worker_find(ws, wname) {
            Some(wm) => run_matches(wm, task, files, r),
            None => r matches Err(e) && is_config_err(e, "Worker not found."@),
        },
        Some(_) => r matches Err(e) && is_config_err(e, "Worker should be string."@),
    }
}

/// How extracting the declared tasks ends: each task's name and record
/// in declaration order, or the first failure — a missing or non-table
/// `Task` key, or a task entry that is not a table.
pub enum TasksOutcome {
    Tasks(Seq<(Seq<char>, Seq<(Seq<char>, ValModel)>)>),
    NoTaskTable,
    TaskNotTable,
}

/// Extracts the tasks declared from position `i` on: every entry must
/// hold a table, and the first bad entry stops the extraction.
pub open spec fn tasks_from(ts: Seq<(Seq<char>, ValModel)>, i: int) -> TasksOutcome
    decreases ts.len() - i,
{
    if i < 0 || i >= ts.len() {
        TasksOutcome::Tasks(Seq::empty())
    } else {
        match ts[i].1 {
            ValModel::Table(t) => match tasks_from(ts, i + 1) {
                TasksOutcome::Tasks(rest) => TasksOutcome::Tasks(seq![(ts[i].0, t)] + rest),
                other => other,
            },
            _ => TasksOutcome::TaskNotTable,
        }
    }
}

/// How extracting the task list from the configuration ends: the `Task`
/// key must hold a table of task records.
pub open spec fn tasks_outcome(cfg: Seq<(Seq<char>, ValModel)>) -> TasksOutcome {
    match tab_find(cfg, "Task"@) {
        Some(ValModel::Table(ts)) => tasks_from(ts, 0),
        _ => TasksOutcome::NoTaskTable,
    }
}

/// The view of an extracted task list: each name and record model.
pub open spec fn tasks_model(s: Seq<(&String, &Table)>) -> Seq<
    (Seq<char>, Seq<(Seq<char>, ValModel)>),
>
    decreases s,
{
    if s.len() == 0 {
        Seq::empty()
    } else {
        tasks_model(s.drop_last()).push((s.last().0@, tab_model(s.last().1@)))
    }
}

/// The task-list model has one entry per task, in order.
pub proof fn lemma_tasks_model_index(s: Seq<(&String, &Table)>)
    ensures
        tasks_model(s).len() == s.len(),
        forall|k: int| 0 <= k < s.len() ==> tasks_model(s)[k] == (s[k].0@, tab_model(s[k].1@)),
    decreases s.len(),
{
    if s.len() > 0 {
        lemma_tasks_model_index(s.drop_last());
        assert forall|k: int| 0 <= k < s.len() implies tasks_model(s)[k] == (
            s[k].0@,
            tab_model(s[k].1@),
        ) by {
            if k < s.len() - 1 {
                assert(s.drop_last()[k] == s[k]);
            }
        }
    }
}

/// Extracts the tasks declared from position `i` on, fail-fast.
fn task_refs_from<'a>(ts: &'a Vec<(String, ConfigValue)>, i: usize) -> (r: Result<
    Vec<(&'a String, &'a Table)>,
    Error,
>)
    requires
        i <= ts@.len(),
    ensures
        match r {
            Ok(out) => tasks_from(tab_model(ts@), i as int) == TasksOutcome::Tasks(
                tasks_model(out@),
            ),
            Err(e) => match tasks_from(tab_model(ts@), i as int) {
                TasksOutcome::TaskNotTable => is_config_err(e, "Failure parsing tasks."@),
                _ => false,
            },
        },
    decreases ts@.len() - i,
{
    proof {
        crate::value::lemma_tab_model_index(ts@);
    }
    if i < ts.len() {
        match &ts[i].1 {
            ConfigValue::Table(t) => match task_refs_from(ts, i + 1) {
                Ok(mut rest) => {
                    let ghost prev = rest@;
                    let ghost head = (ts@[i as int].0@, tab_model(t@));
                    rest.insert(0, (&ts[i].0, t));
                    proof {
                        lemma_tasks_model_index(rest@);
                        lemma_tasks_model_index(prev);
                        assert(tasks_model(rest@) =~= seq![head] + tasks_model(prev));
                    }
                    Ok(rest)
                },
                Err(e) => Err(e),
            },
            _ => Err(Error::config("Failure parsing tasks.")),
        }
    } else {
        Ok(Vec::new())
    }
}

/// The task list the configuration declares: the `Task` key must hold a
/// table, each of whose entries is one task record, kept in declaration
/// order.  Each of the two shape failures has its own error.
pub fn task_list<'a>(config: &'a Table) -> (r: Result<Vec<(&'a String, &'a Table)>, Error>)
    ensures
        match r {
            Ok(ts) => tasks_outcome(tab_model(config@)) == TasksOutcome::Tasks(tasks_model(ts@)),
            Err(e) => match tasks_outcome(tab_model(config@)) {
                TasksOutcome::Tasks(_) => false,
                TasksOutcome::NoTaskTable => is_config_err(e, "Tasks not found."@),
                TasksOutcome::TaskNotTable => is_config_err(e, "Failure parsing tasks."@),
            },
        },
{
    match table_get(config, "Task") {
        Some(v) => match v {
            ConfigValue::Table(ts) => task_refs_from(ts, 0),
            _ => Err(Error::config("Tasks not found.")),
        },
        None => Err(Error::config("Tasks not found.")),
    }
}

/// The template directory the configuration's `Handlebars` worker asks
/// for, when the configuration declares one.
pub open spec fn config_templates_dir(cfg: Seq<(Seq<char>, ValModel)>) -> Option<Seq<char>> {
    match tab_find(cfg, "Worker"@) {
        Some(ValModel::Table(w)) => match tab_find(w, "Handlebars"@) {
            Some(ValModel::Table(opts)) => Some(templates_dir_of(opts)),
            _ => None,
        },
        _ => None,
    }
}

/// The template directory the configuration's `Handlebars` worker asks
/// for — the directory whose files `Blueprint::new` expects.
pub fn handlebars_templates_dir(config: &Table) -> (r: Option<String>)
    ensures
        match r {
            Some(d) => config_templates_dir(tab_model(config@)) == Some(d@),
            None => config_templates_dir(tab_model(config@)) is None,
        },
{
    match table_get(config, "Worker") {
        Some(v) => match v {
            ConfigValue::Table(w) => match table_get(w, "Handlebars") {
                Some(h) => match h {
                    ConfigValue::Table(opts) => Some(templates_dir(opts)),
                    _ => None,
                },
                None => None,
            },
            _ => None,
        },
        None => None,
    }
}

/// Loads the workers declared from position `i` on, fail-fast.
fn load_workers_from(
    entries: &Vec<(String, ConfigValue)>,
    template_files: &Vec<(String, String)>,
    i: usize,
) -> (r: Result<Vec<(String, Worker)>, Error>)
    requires
        i <= entries@.len(),
    ensures
        match r {
            Ok(ws) => load_from(tab_model(entries@), files_model(template_files@), i as int)
                == LoadOutcome::Loaded(workers_model(ws@)),
            Err(e) => match load_from(
                tab_model(entries@),
                files_model(template_files@),
                i as int,
            ) {
                LoadOutcome::Loaded(_) => false,
                o => load_err_matches(o, e),
            },
        },
    decreases entries@.len() - i,
{
    proof {
        crate::value::lemma_tab_model_index(entries@);
    }
    if i < entries.len() {
        match &entries[i].1 {
            ConfigValue::Table(opts) => {
                let made: Worker = if crate::text::str_eq(entries[i].0.as_str(), "Handlebars") {
                    match Handlebars::new(opts, template_files) {
                        Ok(h) => Worker::Handlebars(h),
                        Err(e) => {
                            return Err(e);
                        },
                    }
                } else if crate::text::str_eq(entries[i].0.as_str(), "Copy") {
                    match CopyWorker::new(opts) {
                        Ok(c) => Worker::Copy(c),
                        Err(e) => {
                            return Err(e);
                        },
                    }
                } else {
                    return Err(Error::config("Worker is not known"));
                };
                match load_workers_from(entries, template_files, i + 1) {
                    Ok(mut rest) => {
                        let ghost prev = rest@;
                        let name = entries[i].0.clone();
                        let ghost head = (name@, made.wmodel());
                        rest.insert(0, (name, made));
                        proof {
                            lemma_workers_model_index(rest@);
                            lemma_workers_model_index(prev);
                            assert(workers_model(rest@) =~= seq![head] + workers_model(prev));
                        }
                        Ok(rest)
                    },
                    Err(e) => Err(e),
                }
            },
            _ => Err(Error::config("Worker is not table")),
        }
    } else {
        Ok(Vec::new())
    }
}

/// Law: dispatch is a function of the registry, the task record and the
/// source files.  Running the same task twice against an unchanged
/// source tree fails alike or plans byte-identical output files both
/// times: no timestamp or other nondeterministic content enters the
/// pipeline.
pub proof fn lemma_run_task_deterministic(
    ws: Seq<(Seq<char>, WorkerModel)>,
    task: Seq<(Seq<char>, ValModel)>,
    files: Seq<(Seq<char>, Seq<char>)>,
    r1: Result<Vec<OutFile>, Error>,
    r2: Result<Vec<OutFile>, Error>,
)
    requires
        task_matches(ws, task, files, r1),
        task_matches(ws, task, files, r2),
    ensures
        r1 is Ok <==> r2 is Ok,
        match (r1, r2) {
            (Ok(o1), Ok(o2)) => outs_model(o1@) == outs_model(o2@),
            _ => true,
        },
{
    match tab_find(task, "worker"@) {
        Some(ValModel::Str(wname)) => match worker_find(ws, wname) {
            Some(wm) => {
                crate::worker::lemma_run_deterministic(wm, task, files, r1, r2);
            },
            None => {},
        },
        _ => {},
    }
}

/// Looks a worker up by name from position `i` on.
fn worker_get_from<'a>(ws: &'a Vec<(String, Worker)>, name: &str, i: usize) -> (r: Option<
    &'a Worker,
>)
    requires
        i <= ws@.len(),
    ensures
        match r {
            Some(w) => worker_find(workers_model(ws@).skip(i as int), name@) == Some(w.wmodel()),
            None => worker_find(workers_model(ws@).skip(i as int), name@) is None,
        },
    decreases ws@.len() - i,
{
    proof {
        lemma_workers_model_index(ws@);
    }
    if i < ws.len() {
        proof {
            let tail = workers_model(ws@).skip(i as int);
            assert(tail[0] == (ws@[i as int].0@, ws@[i as int].1.wmodel()));
            assert(tail.drop_first() =~= workers_model(ws@).skip(i + 1));
        }
        if crate::text::str_eq(ws[i].0.as_str(), name) {
            Some(&ws[i].1)
        } else {
            worker_get_from(ws, name, i + 1)
        }
    } else {
        proof {
            assert(workers_model(ws@).skip(i as int) =~= Seq::<(Seq<char>, WorkerModel)>::empty());
        }
        None
    }
}

impl Blueprint {
    /// Builds the registry from the configuration and the template
    /// files read from the `Handlebars` worker's template directory
    /// (see [`handlebars_templates_dir`]): the `Worker` key must hold a
    /// table, every entry must be a table under a known worker-type
    /// name, and the first bad entry or failed worker construction
    /// aborts the whole build — no partial registry is produced.
    pub fn new(config: &Table, template_files: &Vec<(String, String)>) -> (r: Result<
        Blueprint,
        Error,
    >)
        ensures
            match r {
                Ok(bp) => load_outcome(tab_model(config@), files_model(template_files@))
                    == LoadOutcome::Loaded(workers_model(bp.workers@)),
                Err(e) => load_err_matches(
                    load_outcome(tab_model(config@), files_model(template_files@)),
                    e,
                ),
            },
    {
        match table_get(config, "Worker") {
            Some(v) => match v {
                ConfigValue::Table(w) => match Self::load_workers(w, template_files) {
                    Ok(ws) => Ok(Blueprint { workers: ws }),
                    Err(e) => Err(e),
                },
                _ => Err(Error::config("No `Worker` found in config.")),
            },
            None => Err(Error::config("No `Worker` found in config.")),
        }
    }

    /// Loads every declared worker, fail-fast, in declaration order.
    fn load_workers(
        entries: &Vec<(String, ConfigValue)>,
        template_files: &Vec<(String, String)>,
    ) -> (r: Result<Vec<(String, Worker)>, Error>)
        ensures
            match r {
                Ok(ws) => load_from(tab_model(entries@), files_model(template_files@), 0)
                    == LoadOutcome::Loaded(workers_model(ws@)),
                Err(e) => match load_from(tab_model(entries@), files_model(template_files@), 0) {
                    LoadOutcome::Loaded(_) => false,
                    o => load_err_matches(o, e),
                },
            },
    {
        load_workers_from(entries, template_files, 0)
    }

    /// Routes a task to the worker its `worker` field names and runs
    /// it over the files of the task's source directory.  The field
    /// must be present, hold a string, and name a registered worker;
    /// each of the three failure modes has its own error.
    pub fn run_task(&self, _name: &str, task: &Task, files: &Vec<(String, String)>) -> (r: Result<
        Vec<OutFile>,
        Error,
    >)
        ensures
            task_matches(workers_model(self.workers@), tab_model(task@), files_model(files@), r),
    {
        proof {
            assert(workers_model(self.workers@).skip(0) =~= workers_model(self.workers@));
        }
        match table_get(task, "worker") {
            None => Err(Error::config("Worker not specified.")),
            Some(v) => match v {
                ConfigValue::Str(wname) => match worker_get_from(&self.workers, wname.as_str(), 0) {
                    None => Err(Error::config("Worker not found.")),
                    Some(w) => w.run(task, files),
                },
                _ => Err(Error::config("Worker should be string.")),
            },
        }
    }
}

} // verus!
