//! A llama.cpp server that fetches its model from a Hugging Face repository.

use vstd::prelude::*;
use crate::command::{arg_texts, push_arg, ServerCommand, ServerPath};
use crate::endpoint::{checked_url, http_url, http_url_text, parsed_url, try_checked_url, url_accepted};
use crate::paths::{port_file, port_file_path};
use crate::port::{default_hash_of_str, hashed_port, port_from_hash, str_default_hash};
use crate::supervisor::{llama_server_profile, DaemonProfile};
use crate::text::{decimal, decimal_string, lemma_decimal_injective};

verus! {

/// The settings of one daemon whose server fetches its model.
#[derive(Clone, Debug)]
pub struct LlamaConfig {
    pub pid_file: String,
    pub stdout: String,
    pub stderr: String,
    pub sock_file: String,
    pub port: u16,
}

impl LlamaConfig {
    /// `http://127.0.0.1:<port>/v1`, the OpenAI-style API of the server.
    pub open spec fn endpoint_text(&self) -> Seq<char> {
        http_url_text("127.0.0.1"@, self.port, "/v1"@)
    }

    /// `http://127.0.0.1:<port>/health`, where the server reports readiness.
    pub open spec fn health_text(&self) -> Seq<char> {
        http_url_text("127.0.0.1"@, self.port, "/health"@)
    }

    /// The API's URL, as the `url` crate normalises it.
    pub fn endpoint(&self) -> (r: String)
        requires
            url_accepted(self.endpoint_text()),
        ensures
            r@ == parsed_url(self.endpoint_text())->0,
    {
        let text = http_url("127.0.0.1", self.port, "/v1");
        checked_url(text.as_str())
    }

    /// The API's URL, or `None` where the `url` crate rejects it.
    pub fn try_endpoint(&self) -> (r: Option<String>)
        ensures
            r is Some <==> url_accepted(self.endpoint_text()),
            r matches Some(s) ==> s@ == parsed_url(self.endpoint_text())->0,
    {
        let text = http_url("127.0.0.1", self.port, "/v1");
        match try_checked_url(text.as_str()) {
            Some(_) => Some(self.endpoint()),
            None => None,
        }
    }

    /// The health check's URL, as the `url` crate normalises it.
    pub fn health_url(&self) -> (r: String)
        requires
            url_accepted(self.health_text()),
        ensures
            r@ == parsed_url(self.health_text())->0,
    {
        let text = http_url("127.0.0.1", self.port, "/health");
        checked_url(text.as_str())
    }

    /// The health check's URL, or `None` where the `url` crate rejects it.
    pub fn try_health_url(&self) -> (r: Option<String>)
        ensures
            r is Some <==> url_accepted(self.health_text()),
            r matches Some(s) ==> s@ == parsed_url(self.health_text())->0,
    {
        let text = http_url("127.0.0.1", self.port, "/health");
        match try_checked_url(text.as_str()) {
            Some(_) => Some(self.health_url()),
            None => None,
        }
    }

    /// The settings on `port`: files `/tmp/llm-<port>.{pid,stdout,stderr,sock}`.
    pub open spec fn is_for_port(&self, port: u16) -> bool {
        &&& self.port == port
        &&& self.pid_file@ == port_file_path(port, "pid"@)
        &&& self.stdout@ == port_file_path(port, "stdout"@)
        &&& self.stderr@ == port_file_path(port, "stderr"@)
        &&& self.sock_file@ == port_file_path(port, "sock"@)
    }

    /// The settings on `port` (see [`LlamaConfig::is_for_port`]).
    pub fn for_port(port: u16) -> (c: LlamaConfig)
        ensures
            c.is_for_port(port),
    {
        LlamaConfig {
            pid_file: port_file(port, "pid"),
            stdout: port_file(port, "stdout"),
            stderr: port_file(port, "stderr"),
            sock_file: port_file(port, "sock"),
            port,
        }
    }
}

/// The arguments that start a llama.cpp server on `port` with the model of a
/// Hugging Face repository.
pub open spec fn repo_server_args(port: u16, hf_repo: Seq<char>) -> Seq<Seq<char>> {
    seq!["--port"@, decimal(port as nat), "-ngl"@, "200"@, "-c"@, "8192"@, "--hf-repo"@, hf_repo]
}

/// A daemon that runs a llama.cpp server on the model of a Hugging Face
/// repository; the server binary lies beside the running executable.
#[derive(Clone, Debug)]
pub struct Daemon {
    server_path: ServerPath,
    hf_repo: String,
    config: LlamaConfig,
}

impl Daemon {
    /// Where its server binary lies.
    pub closed spec fn server(&self) -> ServerPath {
        self.server_path
    }

    /// The repository of its model.
    pub closed spec fn repo(&self) -> Seq<char> {
        self.hf_repo@
    }

    /// Its settings.
    pub closed spec fn settings(&self) -> LlamaConfig {
        self.config
    }

    /// The daemon for `hf_repo` on `port`.
    pub fn with_port(hf_repo: String, port: u16) -> (d: Daemon)
        ensures
            d.server() == ServerPath::BesideExecutable,
            d.repo() == hf_repo@,
            d.settings().is_for_port(port),
    {
        Daemon { server_path: ServerPath::BesideExecutable, hf_repo, config: LlamaConfig::for_port(port) }
    }

    /// The daemon for `hf_repo` when its name hashes to `hash`: port
    /// `9000 + (hash & 0xff)`.
    pub fn from_hash(hf_repo: String, hash: u64) -> (d: Daemon)
        ensures
            d.server() == ServerPath::BesideExecutable,
            d.repo() == hf_repo@,
            d.settings().is_for_port(hashed_port(hash)),
    {
        let port = port_from_hash(hash);
        Daemon::with_port(hf_repo, port)
    }

    /// The daemon for `hf_repo`, on a port taken from the hash of its name;
    /// daemons for the same repository share their port and files.
    pub fn from_repo(hf_repo: String) -> (d: Daemon)
        ensures
            d.server() == ServerPath::BesideExecutable,
            d.repo() == hf_repo@,
            d.settings().is_for_port(hashed_port(str_default_hash(hf_repo@))),
            9000 <= d.settings().port <= 9255,
    {
        let hash = default_hash_of_str(hf_repo.as_str());
        Daemon::from_hash(hf_repo, hash)
    }

    /// Its settings.
    pub fn config(&self) -> (r: &LlamaConfig)
        ensures
            *r == self.settings(),
    {
        &self.config
    }

    /// Where its server binary lies.
    pub fn server_path(&self) -> (r: &ServerPath)
        ensures
            *r == self.server(),
    {
        &self.server_path
    }

    /// The repository of its model.
    pub fn hf_repo(&self) -> (r: &String)
        ensures
            r@ == self.repo(),
    {
        &self.hf_repo
    }

    /// The file that receives the daemon's standard output.
    pub fn stdout(&self) -> (r: &String)
        ensures
            *r == self.settings().stdout,
    {
        &self.config.stdout
    }

    /// The file that receives the daemon's standard error.
    pub fn stderr(&self) -> (r: &String)
        ensures
            *r == self.settings().stderr,
    {
        &self.config.stderr
    }

    /// The file that holds the daemon's process id while it runs.
    pub fn pid_file(&self) -> (r: &String)
        ensures
            *r == self.settings().pid_file,
    {
        &self.config.pid_file
    }

    /// The socket on which the daemon takes heartbeats.
    pub fn sock_file(&self) -> (r: &String)
        ensures
            *r == self.settings().sock_file,
    {
        &self.config.sock_file
    }

    /// How the daemon supervises its server.
    pub fn profile(&self) -> (p: DaemonProfile)
        ensures
            p == llama_server_profile(),
    {
        llama_server_profile()
    }

    /// The command that starts the server, for the running executable at
    /// `exe`: the server binary with
    /// `--port <port> -ngl 200 -c 8192 --hf-repo <repo>`.
    pub fn command(&self, exe: &str) -> (c: ServerCommand)
        ensures
            c.texts() == (
                self.server().resolved(exe@, true),
                repo_server_args(self.settings().port, self.repo()),
            ),
    {
        let program = self.server_path.resolve(exe, true);
        let mut args: Vec<String> = Vec::new();
        push_arg(&mut args, "--port");
        let port = decimal_string(self.config.port as u64);
        push_arg(&mut args, port.as_str());
        push_arg(&mut args, "-ngl");
        push_arg(&mut args, "200");
        push_arg(&mut args, "-c");
        push_arg(&mut args, "8192");
        push_arg(&mut args, "--hf-repo");
        push_arg(&mut args, self.hf_repo.as_str());
        let c = ServerCommand { program, args };
        assert(arg_texts(c.args@) =~= repo_server_args(self.settings().port, self.repo()));
        c
    }
}

/// The server's API lies at `http://127.0.0.1:<port>/v1` and its health
/// check at `http://127.0.0.1:<port>/health` (recent llama.cpp answers a
/// `GET` on the old completion path with 405), both on the configured port.
pub proof fn law_server_urls(c: LlamaConfig)
    ensures
        c.endpoint_text() == "http://127.0.0.1:"@ + decimal(c.port as nat) + "/v1"@,
        c.health_text() == "http://127.0.0.1:"@ + decimal(c.port as nat) + "/health"@,
{
    reveal_strlit("http://");
    reveal_strlit("127.0.0.1");
    reveal_strlit(":");
    reveal_strlit("http://127.0.0.1:");
    assert(c.endpoint_text() =~= "http://127.0.0.1:"@ + decimal(c.port as nat) + "/v1"@);
    assert(c.health_text() =~= "http://127.0.0.1:"@ + decimal(c.port as nat) + "/health"@);
}

/// The server is started on the configured port, rendered in decimal right
/// after `--port`, with the repository last; servers configured for
/// different ports are started on different ports.
pub proof fn law_command_carries_port_and_repo(port: u16, other_port: u16, hf_repo: Seq<char>)
    ensures
        repo_server_args(port, hf_repo).len() == 8,
        repo_server_args(port, hf_repo)[0] == "--port"@,
        repo_server_args(port, hf_repo)[1] == decimal(port as nat),
        repo_server_args(port, hf_repo)[6] == "--hf-repo"@,
        repo_server_args(port, hf_repo)[7] == hf_repo,
        port != other_port ==> repo_server_args(port, hf_repo) != repo_server_args(other_port, hf_repo),
{
    if port != other_port && repo_server_args(port, hf_repo) == repo_server_args(other_port, hf_repo) {
        assert(repo_server_args(port, hf_repo)[1] == repo_server_args(other_port, hf_repo)[1]);
        lemma_decimal_injective(port as nat, other_port as nat);
    }
}

} // verus!
