use vstd::prelude::*;

verus! {

/// The single error kind of this crate: a failed subprocess, file read or
/// parse, carrying a descriptive message that callers may pattern-match on.
#[derive(Debug)]
pub enum CustomError {
    CommandExecution(String),
}

pub type CustomResult<T> = Result<T, CustomError>;

impl CustomError {
    /// The message carried by the error.
    pub open spec fn spec_message(&self) -> Seq<char> {
        match self {
            CustomError::CommandExecution(m) => m@,
        }
    }

    pub fn message(&self) -> (r: &String)
        ensures
            r@ == self.spec_message(),
    {
        match self {
            CustomError::CommandExecution(m) => m,
        }
    }
}

} // verus!
