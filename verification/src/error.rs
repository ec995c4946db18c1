//! The error taxonomy: configuration errors, worker errors, and failures
//! reported by the template engine.
use vstd::prelude::*;

verus! {

/// A configuration or worker error, with a static description.
#[derive(Debug, PartialEq, Eq)]
pub enum BlueprintError {
    /// Malformed or missing required configuration structure.
    Config(&'static str),
    /// A failure intrinsic to a worker's own domain logic.
    Worker(&'static str),
}

/// Any failure a construction or a task run surfaces.
#[derive(Debug, PartialEq, Eq)]
pub enum Error {
    /// A configuration or worker error with no single file at fault.
    Blueprint(BlueprintError),
    /// A configuration or worker error tied to one file: the offending
    /// page or template file's name, and the error.
    File(String, BlueprintError),
    /// A failure the template engine reported: the offending template or
    /// page name, and the engine's message.
    Template(String, String),
}

/// Whether `e` is the configuration error whose description reads `msg`.
pub open spec fn is_config_err(e: Error, msg: Seq<char>) -> bool {
    e matches Error::Blueprint(BlueprintError::Config(m)) && m@ == msg
}

/// Whether `e` is the worker error whose description reads `msg`, tied
/// to the file named `name`.
pub open spec fn is_file_err(e: Error, name: Seq<char>, msg: Seq<char>) -> bool {
    e matches Error::File(n, BlueprintError::Worker(m)) && n@ == name && m@ == msg
}

impl Error {
    /// The configuration error with the given description.
    pub fn config(msg: &'static str) -> (r: Error)
        ensures
            r == Error::Blueprint(BlueprintError::Config(msg)),
    {
        Error::Blueprint(BlueprintError::Config(msg))
    }

    /// The worker error with the given description, tied to one file.
    pub fn file_worker(name: String, msg: &'static str) -> (r: Error)
        ensures
            r == Error::File(name, BlueprintError::Worker(msg)),
    {
        Error::File(name, BlueprintError::Worker(msg))
    }
}

} // verus!
