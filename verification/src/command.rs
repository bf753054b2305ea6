//! The command line that starts a server, and where its binary is found.

use vstd::prelude::*;
use crate::paths::{server_beside, server_path_beside};

verus! {

/// Where the server binary of a daemon lies.
#[derive(Clone, Debug)]
pub enum ServerPath {
    /// At this path.
    Given(String),
    /// In the file `server` beside the running executable.
    BesideExecutable,
}

impl ServerPath {
    /// The path of the binary for an executable at `exe`.
    pub open spec fn resolved(&self, exe: Seq<char>, skip_examples: bool) -> Seq<char> {
        match self {
            ServerPath::Given(p) => p@,
            ServerPath::BesideExecutable => server_beside(exe, skip_examples),
        }
    }

    /// Resolves the binary's path for the executable at `exe` (see
    /// [`crate::paths::server_beside`]).
    pub fn resolve(&self, exe: &str, skip_examples: bool) -> (r: String)
        ensures
            r@ == self.resolved(exe@, skip_examples),
    {
        match self {
            ServerPath::Given(p) => p.clone(),
            ServerPath::BesideExecutable => server_path_beside(exe, skip_examples),
        }
    }
}

/// The texts of a list of arguments.
pub open spec fn arg_texts(args: Seq<String>) -> Seq<Seq<char>> {
    args.map_values(|a: String| a@)
}

/// A program and its arguments, ready to be started.
#[derive(Clone, Debug)]
pub struct ServerCommand {
    pub program: String,
    pub args: Vec<String>,
}

impl ServerCommand {
    /// The program's text and the texts of its arguments.
    pub open spec fn texts(&self) -> (Seq<char>, Seq<Seq<char>>) {
        (self.program@, arg_texts(self.args@))
    }
}

/// Appends `arg` to `args`.
pub fn push_arg(args: &mut Vec<String>, arg: &str)
    ensures
        arg_texts(final(args)@) == arg_texts(old(args)@).push(arg@),
{
    args.push(String::from_str(arg));
    assert(arg_texts(args@) =~= arg_texts(old(args)@).push(arg@));
}

/// Appends every argument of `more` to `args`, in order.
pub fn extend_args(args: &mut Vec<String>, more: &Vec<String>)
    ensures
        arg_texts(final(args)@) == arg_texts(old(args)@) + arg_texts(more@),
{
    let n = more.len();
    for i in 0..n
        invariant
            n == more@.len(),
            arg_texts(args@) == arg_texts(old(args)@) + arg_texts(more@.take(i as int)),
    {
        let ghost before = args@;
        args.push(more[i].clone());
        assert(arg_texts(more@.take(i + 1)) =~= arg_texts(more@.take(i as int)).push(more@[i as int]@));
        assert(arg_texts(args@) =~= arg_texts(before).push(more@[i as int]@));
    }
    assert(more@.take(n as int) =~= more@);
}

} // verus!
