//! A process to start, as plain values.

use vstd::prelude::*;

verus! {

/// A program to run, with its arguments and the directory to run it in.
#[derive(Debug, Clone, PartialEq, Eq)]
pub struct Command {
    pub program: String,
    pub args: Vec<String>,
    /// The working directory; `None` for that of the shell itself.
    pub current_dir: Option<String>,
}

/// The texts of a list of strings.
pub open spec fn texts(v: Seq<String>) -> Seq<Seq<char>> {
    v.map_values(|s: String| s@)
}

impl Command {
    /// The arguments, each as its text.
    pub open spec fn args_view(&self) -> Seq<Seq<char>> {
        texts(self.args@)
    }

    /// The working directory as its text.
    pub open spec fn dir_view(&self) -> Option<Seq<char>> {
        match self.current_dir {
            Some(dir) => Some(dir@),
            None => None,
        }
    }
}

} // verus!
