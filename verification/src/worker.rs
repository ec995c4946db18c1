//! The worker capability: the closed set of processing units a task can
//! name, what running one plans, and the option defaulting they share.
pub mod copy;
pub mod handlebars;

use vstd::prelude::*;

use crate::error::Error;
use crate::value::{tab_find_str, tab_model, Table, ValModel};

verus! {

/// One planned output file: where to write and what to write there.
#[derive(Debug, PartialEq, Eq)]
pub struct OutFile {
    pub path: String,
    pub content: String,
}

/// The view of a list of named files: each name and content as characters.
pub open spec fn files_model(files: Seq<(String, String)>) -> Seq<(Seq<char>, Seq<char>)>
    decreases files,
{
    if files.len() == 0 {
        Seq::empty()
    } else {
        files_model(files.drop_last()).push((files.last().0@, files.last().1@))
    }
}

/// The file model has one entry per file, in order.
pub proof fn lemma_files_model_index(s: Seq<(String, String)>)
    ensures
        files_model(s).len() == s.len(),
        forall|k: int| 0 <= k < s.len() ==> files_model(s)[k] == (s[k].0@, s[k].1@),
    decreases s.len(),
{
    if s.len() > 0 {
        lemma_files_model_index(s.drop_last());
        assert forall|k: int| 0 <= k < s.len() implies files_model(s)[k] == (
            s[k].0@,
            s[k].1@,
        ) by {
            if k < s.len() - 1 {
                assert(s.drop_last()[k] == s[k]);
            }
        }
    }
}

/// The view of planned output files: each path and content as characters.
pub open spec fn outs_model(outs: Seq<OutFile>) -> Seq<(Seq<char>, Seq<char>)>
    decreases outs,
{
    if outs.len() == 0 {
        Seq::empty()
    } else {
        outs_model(outs.drop_last()).push((outs.last().path@, outs.last().content@))
    }
}

/// The output model has one entry per planned file, in order.
pub proof fn lemma_outs_model_index(s: Seq<OutFile>)
    ensures
        outs_model(s).len() == s.len(),
        forall|k: int| 0 <= k < s.len() ==> outs_model(s)[k] == (s[k].path@, s[k].content@),
    decreases s.len(),
{
    if s.len() > 0 {
        lemma_outs_model_index(s.drop_last());
        assert forall|k: int| 0 <= k < s.len() implies outs_model(s)[k] == (
            s[k].path@,
            s[k].content@,
        ) by {
            if k < s.len() - 1 {
                assert(s.drop_last()[k] == s[k]);
            }
        }
    }
}

/// Looking a name up in a named-text store: the first entry that matches.
pub open spec fn store_find(t: Seq<(Seq<char>, Seq<char>)>, key: Seq<char>) -> Option<Seq<char>>
    decreases t.len(),
{
    if t.len() == 0 {
        None
    } else if t[0].0 == key {
        Some(t[0].1)
    } else {
        store_find(t.drop_first(), key)
    }
}

/// Setting a name in a named-text store: the first entry with that name
/// is replaced, and a missing name is appended at the end.
pub open spec fn store_set(
    t: Seq<(Seq<char>, Seq<char>)>,
    key: Seq<char>,
    val: Seq<char>,
) -> Seq<(Seq<char>, Seq<char>)>
    decreases t.len(),
{
    if t.len() == 0 {
        seq![(key, val)]
    } else if t[0].0 == key {
        seq![(key, val)] + t.drop_first()
    } else {
        seq![t[0]] + store_set(t.drop_first(), key, val)
    }
}

/// Looks a name up in a named-text store from position `i` on.
fn store_get_from<'a>(store: &'a Vec<(String, String)>, key: &str, i: usize) -> (r: Option<
    &'a String,
>)
    requires
        i <= store@.len(),
    ensures
        match r {
            Some(v) => store_find(files_model(store@).skip(i as int), key@) == Some(v@),
            None => store_find(files_model(store@).skip(i as int), key@) is None,
        },
    decreases store@.len() - i,
{
    proof {
        lemma_files_model_index(store@);
    }
    if i < store.len() {
        proof {
            let tail = files_model(store@).skip(i as int);
            assert(tail[0] == (store@[i as int].0@, store@[i as int].1@));
            assert(tail.drop_first() =~= files_model(store@).skip(i + 1));
        }
        if crate::text::str_eq(store[i].0.as_str(), key) {
            Some(&store[i].1)
        } else {
            store_get_from(store, key, i + 1)
        }
    } else {
        proof {
            assert(files_model(store@).skip(i as int) =~= Seq::<(Seq<char>, Seq<char>)>::empty());
        }
        None
    }
}

/// Looks a name up in a named-text store.
pub fn store_get<'a>(store: &'a Vec<(String, String)>, key: &str) -> (r: Option<&'a String>)
    ensures
        match r {
            Some(v) => store_find(files_model(store@), key@) == Some(v@),
            None => store_find(files_model(store@), key@) is None,
        },
{
    proof {
        assert(files_model(store@).skip(0) =~= files_model(store@));
    }
    store_get_from(store, key, 0)
}

/// Sets a name in a named-text store from position `i` on.
fn store_set_from(store: &mut Vec<(String, String)>, key: String, val: String, i: usize)
    requires
        i <= old(store)@.len(),
    ensures
        files_model(final(store)@) == files_model(old(store)@).take(i as int) + store_set(
            files_model(old(store)@).skip(i as int),
            key@,
            val@,
        ),
    decreases old(store)@.len() - i,
{
    proof {
        lemma_files_model_index(store@);
    }
    let ghost before = store@;
    if i < store.len() {
        proof {
            let tail = files_model(before).skip(i as int);
            assert(tail[0] == (before[i as int].0@, before[i as int].1@));
            assert(tail.drop_first() =~= files_model(before).skip(i + 1));
        }
        if crate::text::str_eq(store[i].0.as_str(), key.as_str()) {
            store.set(i, (key, val));
            proof {
                lemma_files_model_index(store@);
                assert(files_model(store@) =~= files_model(before).take(i as int) + store_set(
                    files_model(before).skip(i as int),
                    key@,
                    val@,
                ));
            }
        } else {
            store_set_from(store, key, val, i + 1);
            proof {
                assert(files_model(before).take(i + 1) =~= files_model(before).take(i as int)
                    + seq![files_model(before)[i as int]]);
                assert(files_model(store@) =~= files_model(before).take(i as int) + store_set(
                    files_model(before).skip(i as int),
                    key@,
                    val@,
                ));
            }
        }
    } else {
        store.push((key, val));
        proof {
            lemma_files_model_index(store@);
            assert(files_model(before).skip(i as int) =~= Seq::<(Seq<char>, Seq<char>)>::empty());
            assert(files_model(store@) =~= files_model(before).take(i as int) + store_set(
                files_model(before).skip(i as int),
                key@,
                val@,
            ));
        }
    }
}

/// Sets a name in a named-text store: replaces the first entry with that
/// name, or appends a new one.
pub fn store_put(store: &mut Vec<(String, String)>, key: String, val: String)
    ensures
        files_model(final(store)@) == store_set(files_model(old(store)@), key@, val@),
{
    proof {
        assert(files_model(store@).skip(0) =~= files_model(store@));
        assert(files_model(store@).take(0) =~= Seq::<(Seq<char>, Seq<char>)>::empty());
    }
    store_set_from(store, key, val, 0);
}

/// The source directory a task names, or `./pages` when the `source`
/// option is missing or not a string.
pub open spec fn source_dir_of(task: Seq<(Seq<char>, ValModel)>) -> Seq<char> {
    match tab_find_str(task, "source"@) {
        Some(s) => s,
        None => "./pages"@,
    }
}

/// The destination directory a task names, or `./out` when the `dest`
/// option is missing or not a string.
pub open spec fn dest_dir_of(task: Seq<(Seq<char>, ValModel)>) -> Seq<char> {
    match tab_find_str(task, "dest"@) {
        Some(s) => s,
        None => "./out"@,
    }
}

/// The task's source directory, with its default.
pub fn source_dir(task: &Table) -> (r: String)
    ensures
        r@ == source_dir_of(tab_model(task@)),
{
    match crate::value::table_get_str(task, "source") {
        Some(s) => s.clone(),
        None => "./pages".to_owned(),
    }
}

/// The task's destination directory, with its default.
pub fn dest_dir(task: &Table) -> (r: String)
    ensures
        r@ == dest_dir_of(tab_model(task@)),
{
    match crate::value::table_get_str(task, "dest") {
        Some(s) => s.clone(),
        None => "./out".to_owned(),
    }
}

/// What a worker is, mathematically: the copy worker, or the templating
/// worker with its template store.
pub enum WorkerModel {
    Copy,
    Templating(Seq<(Seq<char>, Seq<char>)>),
}

/// A worker: one of the closed set of processing units a task can name.
#[derive(Debug, PartialEq, Eq)]
pub enum Worker {
    Handlebars(crate::worker::handlebars::Handlebars),
    Copy(crate::worker::copy::CopyWorker),
}

impl Worker {
    /// The model of this worker.
    pub open spec fn wmodel(self) -> WorkerModel {
        match self {
            Worker::Handlebars(h) => WorkerModel::Templating(files_model(h.templates@)),
            Worker::Copy(_) => WorkerModel::Copy,
        }
    }

    /// Runs the worker over the files of the task's source directory and
    /// plans the output files, as the worker's own contract says.
    pub fn run(&self, task: &Table, files: &Vec<(String, String)>) -> (r: Result<
        Vec<OutFile>,
        Error,
    >)
        ensures
            run_matches(self.wmodel(), tab_model(task@), files_model(files@), r),
    {
        match self {
            Worker::Handlebars(h) => h.run(task, files),
            Worker::Copy(c) => c.run(task, files),
        }
    }
}

/// Law: a worker's run is a function of the worker, the task record and
/// the source files.  Two runs of the same worker over the same task and
/// an unchanged source tree fail alike or plan byte-identical output
/// files: the pipeline injects nothing nondeterministic.
pub proof fn lemma_run_deterministic(
    w: WorkerModel,
    task: Seq<(Seq<char>, ValModel)>,
    files: Seq<(Seq<char>, Seq<char>)>,
    r1: Result<Vec<OutFile>, Error>,
    r2: Result<Vec<OutFile>, Error>,
)
    requires
        run_matches(w, task, files, r1),
        run_matches(w, task, files, r2),
    ensures
        r1 is Ok <==> r2 is Ok,
        match (r1, r2) {
            (Ok(o1), Ok(o2)) => outs_model(o1@) == outs_model(o2@),
            _ => true,
        },
{
    match w {
        WorkerModel::Copy => {
            match (r1, r2) {
                (Ok(o1), Ok(o2)) => {
                    assert(outs_model(o1@) =~= outs_model(o2@));
                },
                _ => {},
            }
        },
        WorkerModel::Templating(_store) => {},
    }
}

/// Whether a run result is the one the worker's model prescribes for the
/// task and the source files.
pub open spec fn run_matches(
    w: WorkerModel,
    task: Seq<(Seq<char>, ValModel)>,
    files: Seq<(Seq<char>, Seq<char>)>,
    r: Result<Vec<OutFile>, Error>,
) -> bool {
    match w {
        WorkerModel::Copy => crate::worker::copy::copy_matches(task, files, r),
        WorkerModel::Templating(store) => crate::worker::handlebars::pages_match(
            store,
            task,
            files,
            r,
        ),
    }
}

} // verus!
