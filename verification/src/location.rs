//! Deriving the repository name from where the tool was invoked.
//!
//! The version-control query that prints the top-level directory runs outside
//! the library; its output is reduced to the repository name here.

use vstd::prelude::*;
use vstd::string::*;
use crate::custom_error::CustomResult;
use crate::text::{
    trim_spec, find_last_char_spec, trim_bounds, rfind_char, extract_range,
    lemma_find_last_char_witness, lemma_find_last_char_none,
};
use crate::zsh_command::ZshCommand;

verus! {

/// The last path segment of the trimmed text: everything after the final
/// `'/'`, or the whole trimmed text when it has none.
pub open spec fn repo_name_spec(s: Seq<char>) -> Seq<char> {
    let t = trim_spec(s);
    match find_last_char_spec(t, '/') {
        None => t,
        Some(i) => t.subrange(i + 1, t.len() as int),
    }
}

pub struct Location {
    zsh_command: ZshCommand,
}

impl Location {
    pub fn new() -> (r: Self) {
        Location { zsh_command: ZshCommand::new() }
    }

    /// The repository name held in the output of the top-level-directory
    /// query: its last path segment.
    pub fn get_name_from_output(&self, output: &str) -> (r: CustomResult<String>)
        ensures
            r matches Ok(name) && name@ == repo_name_spec(output@),
    {
        let n = output.unicode_len();
        let (a, b) = trim_bounds(output, 0, n);
        let ghost t = trim_spec(output@);
        proof {
            assert(output@.subrange(0, n as int) =~= output@);
        }
        match rfind_char(output, a, b, '/') {
            Some(i) => {
                proof {
                    assert(t[i - a] == '/');
                    assert(forall|j: int| i - a < j < t.len() ==> #[trigger] t[j] != '/');
                    lemma_find_last_char_witness(t, '/', i - a);
                    assert(t.subrange(i - a + 1, t.len() as int) =~= output@.subrange(
                        i + 1,
                        b as int,
                    ));
                }
                Ok(extract_range(output, i + 1, b))
            },
            None => {
                proof {
                    assert(forall|j: int| 0 <= j < t.len() ==> #[trigger] t[j] != '/');
                    lemma_find_last_char_none(t, '/');
                }
                Ok(extract_range(output, a, b))
            },
        }
    }
}

} // verus!
