//! What the Node.js packages offer: a [`Daemon3`] with a given server binary.

use vstd::prelude::*;
use crate::command::{arg_texts, ServerPath};
use crate::llama_daemon::daemon3::{Daemon3, Daemon3Params};
use crate::paths::{join, join_path};
use crate::port::{hashed_port, str_default_hash};

verus! {

/// The daemon for `hf_repo` with the server binary at `server_binary` and
/// `args` added to the server's command line; its port comes from the hash
/// of the repository's name.
pub fn daemon_with_binary(server_binary: String, hf_repo: String, args: Vec<String>) -> (d: Daemon3)
    ensures
        d.server() == ServerPath::Given(server_binary),
        d.repo() == hf_repo@,
        d.custom() == arg_texts(args@),
        d.settings().is_for_port(hashed_port(str_default_hash(hf_repo@))),
        9000 <= d.settings().port <= 9255,
{
    Daemon3::new(Daemon3Params { hf_repo, args: Some(args), port: None, server_binary: Some(server_binary) })
}

/// The daemon for `hf_repo` whose server binary is `artifacts/server` under
/// the working directory `cwd`, with `args` added to the server's command
/// line.
pub fn daemon_from_artifacts(hf_repo: String, args: Vec<String>, cwd: &str) -> (d: Daemon3)
    ensures
        d.server() matches ServerPath::Given(p) && p@ == join_path(cwd@, "artifacts/server"@),
        d.repo() == hf_repo@,
        d.custom() == arg_texts(args@),
        d.settings().is_for_port(hashed_port(str_default_hash(hf_repo@))),
        9000 <= d.settings().port <= 9255,
{
    let server_binary = join(cwd, "artifacts/server");
    daemon_with_binary(server_binary, hf_repo, args)
}

} // verus!
