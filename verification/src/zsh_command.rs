//! Classifying what a shell invocation produced.
//!
//! Spawning the shell happens outside the library; the captured output comes
//! back in as plain values and is classified here.

use vstd::prelude::*;
use crate::custom_error::{CustomError, CustomResult};

verus! {

pub struct ZshCommand;

impl ZshCommand {
    pub fn new() -> (r: Self) {
        ZshCommand
    }

    /// Turns the captured output of a finished shell command into the
    /// command's result: its standard output on success, and otherwise an
    /// error that preserves the raw standard-error text, so that callers can
    /// pattern-match on known substrings of it.
    pub fn interpret_output(&self, stdout: String, stderr: String, success: bool) -> (r:
        CustomResult<String>)
        ensures
            match r {
                Ok(out) => success && out@ == stdout@,
                Err(e) => !success && e.spec_message() == stderr@,
            },
    {
        if success {
            Ok(stdout)
        } else {
            Err(CustomError::CommandExecution(stderr))
        }
    }
}

} // verus!
