//! A small interactive shell's core: a POSIX-style argument tokenizer, the
//! extraction of output redirections, search-path resolution and the
//! classification of a command line into builtins and external programs.
use vstd::prelude::*;

pub mod command;
pub mod laws;
pub mod path_env;
pub mod redirect;
pub mod report;
pub mod tokenizer;

verus! {

/// The text of an optional string.
pub open spec fn opt_view(o: Option<String>) -> Option<Seq<char>> {
    match o {
        Some(s) => Some(s@),
        None => None,
    }
}

} // verus!
