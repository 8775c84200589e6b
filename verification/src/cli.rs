//! The command surface of the tool, as plain data.
//!
//! The argument parser around the library fills these in and dispatches on
//! them.

use vstd::prelude::*;

verus! {

pub struct Cli {
    pub command: Commands,
}

pub enum Commands {
    /// Create a pull request.
    CreatePr {
        /// Title of the pull request.
        name: Option<String>,
        /// Source branch.
        source: Option<String>,
        /// Target branch.
        target: String,
        /// Abort on merge conflicts.
        abort: bool,
    },
    Login {},
    LoginNpm {},
    LoginPip {},
    Morning {},
}

} // verus!
