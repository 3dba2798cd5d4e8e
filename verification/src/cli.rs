//! The command-line options the interpreter's entry point accepts.

use vstd::prelude::*;

verus! {

/// The parsed command-line options: an optional command to run instead of
/// the interactive prompt.
#[derive(Debug, Clone, PartialEq, Eq)]
pub struct Cli {
    pub command: Option<String>,
}

} // verus!
