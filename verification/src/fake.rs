//! Pretending to execute a command.

use vstd::prelude::*;
use std::path::PathBuf;

verus! {

/// The output file of a compiler call.
#[derive(Debug)]
pub struct Output {
    pub path: PathBuf,
    /// The file is there.
    pub exists: bool,
}

/// The file to create in place of the execution of a compiler call, so that the build goes on: the
/// output file of the call, if it has one that is not there yet. What is not a compiler call is an
/// error.
pub fn fake_execution<E>(output: Result<Option<Output>, E>) -> (file: Result<Option<PathBuf>, E>)
    ensures
        match output {
            Ok(Some(o)) if !o.exists => file == Ok::<Option<PathBuf>, E>(Some(o.path)),
            Ok(_) => file == Ok::<Option<PathBuf>, E>(None),
            Err(e) => file == Err::<Option<PathBuf>, E>(e),
        },
{
    match output {
        Ok(Some(o)) => if o.exists {
            Ok(None)
        } else {
            Ok(Some(o.path))
        },
        Ok(None) => Ok(None),
        Err(e) => Err(e),
    }
}

} // verus!
