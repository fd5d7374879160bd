//! What the user asked for on the command line.

use vstd::prelude::*;

verus! {

/// The flags and the words of one call of the program.
#[derive(Debug)]
pub struct Args {
    pub flag_version: bool,
    pub flag_help: bool,
    pub flag_star: bool,
    pub flag_add: bool,
    pub flag_title: String,
    pub flag_journal: String,
    pub flag_undo: bool,
    pub flag_verbose: bool,
    pub arg_content: Vec<String>,
}

} // verus!
