//! The copy worker: plans a verbatim copy of every source file into the
//! destination directory, under the same name.
use vstd::prelude::*;

use crate::error::Error;
use crate::text::{join_path, joined};
use crate::value::{tab_model, Table, ValModel};
use crate::worker::{dest_dir, dest_dir_of, files_model, lemma_files_model_index, outs_model,
    lemma_outs_model_index, OutFile};

verus! {

/// The copy worker.  Construction takes no options; running it copies
/// each file of the source directory under the destination directory.
#[derive(Debug, PartialEq, Eq)]
pub struct CopyWorker;

/// Whether a copy run's result is the planned copy: one output per
/// source file, at the destination joined with the file's name, holding
/// the file's content unchanged.  A copy plan itself never fails.
pub open spec fn copy_matches(
    task: Seq<(Seq<char>, ValModel)>,
    files: Seq<(Seq<char>, Seq<char>)>,
    r: Result<Vec<OutFile>, Error>,
) -> bool {
    match r {
        Ok(outs) => {
            &&& outs_model(outs@).len() == files.len()
            &&& forall|k: int|
                0 <= k < files.len() ==> outs_model(outs@)[k] == (
                    joined(dest_dir_of(task), files[k].0),
                    files[k].1,
                )
        },
        Err(_) => false,
    }
}

impl CopyWorker {
    /// Constructs the copy worker; no option is required and none is
    /// read, so construction always succeeds.
    pub fn new(_options: &Table) -> (r: Result<CopyWorker, Error>)
        ensures
            r is Ok,
    {
        Ok(CopyWorker)
    }

    /// Plans the copy of every source file into the task's destination
    /// directory; this never fails.
    pub fn run(&self, task: &Table, files: &Vec<(String, String)>) -> (r: Result<
        Vec<OutFile>,
        Error,
    >)
        ensures
            copy_matches(tab_model(task@), files_model(files@), r),
    {
        let dest = dest_dir(task);
        let mut outs: Vec<OutFile> = Vec::new();
        let mut i: usize = 0;
        proof {
            lemma_files_model_index(files@);
        }
        while i < files.len()
            invariant
                i <= files@.len(),
                dest@ == dest_dir_of(tab_model(task@)),
                files_model(files@).len() == files@.len(),
                forall|k: int|
                    0 <= k < files@.len() ==> files_model(files@)[k] == (
                        files@[k].0@,
                        files@[k].1@,
                    ),
                outs@.len() == i,
                forall|k: int|
                    0 <= k < i ==> outs@[k].path@ == joined(
                        dest_dir_of(tab_model(task@)),
                        files@[k].0@,
                    ) && outs@[k].content@ == files@[k].1@,
            decreases files@.len() - i,
        {
            let path = join_path(dest.as_str(), files[i].0.as_str());
            let content = files[i].1.clone();
            outs.push(OutFile { path, content });
            i = i + 1;
        }
        proof {
            lemma_outs_model_index(outs@);
        }
        Ok(outs)
    }
}

} // verus!
