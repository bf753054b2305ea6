//! A llama.cpp server on the model of a Hugging Face repository, with
//! arguments and binary of the caller's choosing.

use vstd::prelude::*;
use crate::command::{arg_texts, extend_args, push_arg, ServerCommand, ServerPath};
use crate::endpoint::{checked_url, http_url, http_url_text, parsed_url, try_checked_url, url_accepted};
use crate::paths::{port_file, port_file_path};
use crate::port::{default_hash_of_str, hashed_port, port_from_hash, str_default_hash};
use crate::supervisor::{llama_server_profile, DaemonProfile};
use crate::text::{decimal, decimal_string, lemma_decimal_injective};

verus! {

/// The settings of one daemon.
#[derive(Clone, Debug)]
pub struct LlamaConfig {
    pub pid_file: String,
    pub stdout: String,
    pub stderr: String,
    pub sock_file: String,
    pub port: u16,
}

impl LlamaConfig {
    /// `http://127.0.0.1:<port>/v1`, the OpenAI-style API of the server.
    pub open spec fn endpoint_text(&self) -> Seq<char> {
        http_url_text("127.0.0.1"@, self.port, "/v1"@)
    }

    /// `http://127.0.0.1:<port>/health`, where the server reports readiness.
    pub open spec fn health_text(&self) -> Seq<char> {
        http_url_text("127.0.0.1"@, self.port, "/health"@)
    }

    /// The API's URL, as the `url` crate normalises it.
    pub fn endpoint(&self) -> (r: String)
        requires
            url_accepted(self.endpoint_text()),
        ensures
            r@ == parsed_url(self.endpoint_text())->0,
    {
        let text = http_url("127.0.0.1", self.port, "/v1");
        checked_url(text.as_str())
    }

    /// The API's URL, or `None` where the `url` crate rejects it.
    pub fn try_endpoint(&self) -> (r: Option<String>)
        ensures
            r is Some <==> url_accepted(self.endpoint_text()),
            r matches Some(s) ==> s@ == parsed_url(self.endpoint_text())->0,
    {
        let text = http_url("127.0.0.1", self.port, "/v1");
        match try_checked_url(text.as_str()) {
            Some(_) => Some(self.endpoint()),
            None => None,
        }
    }

    /// The health check's URL, as the `url` crate normalises it.
    pub fn health_url(&self) -> (r: String)
        requires
            url_accepted(self.health_text()),
        ensures
            r@ == parsed_url(self.health_text())->0,
    {
        let text = http_url("127.0.0.1", self.port, "/health");
        checked_url(text.as_str())
    }

    /// The health check's URL, or `None` where the `url` crate rejects it.
    pub fn try_health_url(&self) -> (r: Option<String>)
        ensures
            r is Some <==> url_accepted(self.health_text()),
            r matches Some(s) ==> s@ == parsed_url(self.health_text())->0,
    {
        let text = http_url("127.0.0.1", self.port, "/health");
        match try_checked_url(text.as_str()) {
            Some(_) => Some(self.health_url()),
            None => None,
        }
    }

    /// The settings on `port`: files `/tmp/llm-<port>.{pid,stdout,stderr,sock}`.
    pub open spec fn is_for_port(&self, port: u16) -> bool {
        &&& self.port == port
        &&& self.pid_file@ == port_file_path(port, "pid"@)
        &&& self.stdout@ == port_file_path(port, "stdout"@)
        &&& self.stderr@ == port_file_path(port, "stderr"@)
        &&& self.sock_file@ == port_file_path(port, "sock"@)
    }

    /// The settings on `port` (see [`LlamaConfig::is_for_port`]).
    pub fn for_port(port: u16) -> (c: LlamaConfig)
        ensures
            c.is_for_port(port),
    {
        LlamaConfig {
            pid_file: port_file(port, "pid"),
            stdout: port_file(port, "stdout"),
            stderr: port_file(port, "stderr"),
            sock_file: port_file(port, "sock"),
            port,
        }
    }
}

/// What a [`Daemon3`] is made from: the model's repository, arguments added
/// to the server's command line (none where absent), the port (taken from
/// the hash of the repository's name where absent) and the server binary
/// (the `server` beside the running executable where absent).
#[derive(Clone, Debug)]
pub struct Daemon3Params {
    pub hf_repo: String,
    pub args: Option<Vec<String>>,
    pub port: Option<u16>,
    pub server_binary: Option<String>,
}

/// The arguments that start a llama.cpp server on `port` with the model of
/// a Hugging Face repository, followed by `custom`.
pub open spec fn custom_server_args(port: u16, hf_repo: Seq<char>, custom: Seq<Seq<char>>) -> Seq<
    Seq<char>,
> {
    seq!["--port"@, decimal(port as nat), "-hf"@, hf_repo] + custom
}

/// The server location that `server_binary` asks for.
pub open spec fn server_for(server_binary: Option<String>) -> ServerPath {
    match server_binary {
        Some(p) => ServerPath::Given(p),
        None => ServerPath::BesideExecutable,
    }
}

/// The custom arguments that `args` asks for.
pub open spec fn custom_args_for(args: Option<Vec<String>>) -> Seq<Seq<char>> {
    match args {
        Some(v) => arg_texts(v@),
        None => seq![],
    }
}

/// A daemon that runs a llama.cpp server on the model of a Hugging Face
/// repository.
#[derive(Clone, Debug)]
pub struct Daemon3 {
    server_path: ServerPath,
    hf_repo: String,
    config: LlamaConfig,
    custom_args: Vec<String>,
}

impl Daemon3 {
    /// Where its server binary lies.
    pub closed spec fn server(&self) -> ServerPath {
        self.server_path
    }

    /// The repository of its model.
    pub closed spec fn repo(&self) -> Seq<char> {
        self.hf_repo@
    }

    /// Its settings.
    pub closed spec fn settings(&self) -> LlamaConfig {
        self.config
    }

    /// The arguments added to the server's command line.
    pub closed spec fn custom(&self) -> Seq<Seq<char>> {
        arg_texts(self.custom_args@)
    }

    /// The daemon made from `params` when the repository's name hashes to
    /// `hash`, which gives the port `9000 + (hash & 0xff)` unless `params`
    /// names one.
    pub fn from_hash(params: Daemon3Params, hash: u64) -> (d: Daemon3)
        ensures
            d.server() == server_for(params.server_binary),
            d.repo() == params.hf_repo@,
            d.custom() == custom_args_for(params.args),
            d.settings().is_for_port(
                match params.port {
                    Some(p) => p,
                    None => hashed_port(hash),
                },
            ),
    {
        let port = match params.port {
            Some(p) => p,
            None => port_from_hash(hash),
        };
        let server_path = match params.server_binary {
            Some(p) => ServerPath::Given(p),
            None => ServerPath::BesideExecutable,
        };
        let custom_args = match params.args {
            Some(v) => v,
            None => Vec::new(),
        };
        proof {
            assert(params.args is None ==> arg_texts(custom_args@) =~= seq![]);
        }
        Daemon3 { server_path, hf_repo: params.hf_repo, config: LlamaConfig::for_port(port), custom_args }
    }

    /// The daemon made from `params`; where they name no port, it is taken
    /// from the hash of the repository's name, so that daemons for the same
    /// repository share their port and files.
    pub fn new(params: Daemon3Params) -> (d: Daemon3)
        ensures
            d.server() == server_for(params.server_binary),
            d.repo() == params.hf_repo@,
            d.custom() == custom_args_for(params.args),
            params.port matches Some(p) ==> d.settings().is_for_port(p),
            params.port is None ==> d.settings().is_for_port(
                hashed_port(str_default_hash(params.hf_repo@)),
            ),
            params.port is None ==> 9000 <= d.settings().port <= 9255,
    {
        let hash = default_hash_of_str(params.hf_repo.as_str());
        Daemon3::from_hash(params, hash)
    }

    /// The daemon for `hf_repo` on `port`, with the server binary beside the
    /// running executable and `custom_args` added to its command line.
    pub fn with_port(hf_repo: String, port: u16, custom_args: Vec<String>) -> (d: Daemon3)
        ensures
            d.server() == ServerPath::BesideExecutable,
            d.repo() == hf_repo@,
            d.custom() == arg_texts(custom_args@),
            d.settings().is_for_port(port),
    {
        Daemon3::new(Daemon3Params { hf_repo, args: Some(custom_args), port: Some(port), server_binary: None })
    }

    /// Its settings.
    pub fn config(&self) -> (r: &LlamaConfig)
        ensures
            *r == self.settings(),
    {
        &self.config
    }

    /// Where its server binary lies.
    pub fn server_path(&self) -> (r: &ServerPath)
        ensures
            *r == self.server(),
    {
        &self.server_path
    }

    /// The repository of its model.
    pub fn hf_repo(&self) -> (r: &String)
        ensures
            r@ == self.repo(),
    {
        &self.hf_repo
    }

    /// The file that receives the daemon's standard output.
    pub fn stdout(&self) -> (r: &String)
        ensures
            *r == self.settings().stdout,
    {
        &self.config.stdout
    }

    /// The file that receives the daemon's standard error.
    pub fn stderr(&self) -> (r: &String)
        ensures
            *r == self.settings().stderr,
    {
        &self.config.stderr
    }

    /// The file that holds the daemon's process id while it runs.
    pub fn pid_file(&self) -> (r: &String)
        ensures
            *r == self.settings().pid_file,
    {
        &self.config.pid_file
    }

    /// The socket on which the daemon takes heartbeats.
    pub fn sock_file(&self) -> (r: &String)
        ensures
            *r == self.settings().sock_file,
    {
        &self.config.sock_file
    }

    /// How the daemon supervises its server.
    pub fn profile(&self) -> (p: DaemonProfile)
        ensures
            p == llama_server_profile(),
    {
        llama_server_profile()
    }

    /// The command that starts the server, for the running executable at
    /// `exe`: the server binary with `--port <port> -hf <repo>` and then the
    /// custom arguments.
    pub fn command(&self, exe: &str) -> (c: ServerCommand)
        ensures
            c.texts() == (
                self.server().resolved(exe@, true),
                custom_server_args(self.settings().port, self.repo(), self.custom()),
            ),
    {
        let program = self.server_path.resolve(exe, true);
        let mut args: Vec<String> = Vec::new();
        push_arg(&mut args, "--port");
        let port = decimal_string(self.config.port as u64);
        push_arg(&mut args, port.as_str());
        push_arg(&mut args, "-hf");
        push_arg(&mut args, self.hf_repo.as_str());
        extend_args(&mut args, &self.custom_args);
        let c = ServerCommand { program, args };
        assert(arg_texts(c.args@) =~= custom_server_args(self.settings().port, self.repo(), self.custom()));
        c
    }
}

/// The server's API lies at `http://127.0.0.1:<port>/v1` and its health
/// check at `http://127.0.0.1:<port>/health` (recent llama.cpp answers a
/// `GET` on the old completion path with 405), both on the configured port.
pub proof fn law_server_urls(c: LlamaConfig)
    ensures
        c.endpoint_text() == "http://127.0.0.1:"@ + decimal(c.port as nat) + "/v1"@,
        c.health_text() == "http://127.0.0.1:"@ + decimal(c.port as nat) + "/health"@,
{
    reveal_strlit("http://");
    reveal_strlit("127.0.0.1");
    reveal_strlit(":");
    reveal_strlit("http://127.0.0.1:");
    assert(c.endpoint_text() =~= "http://127.0.0.1:"@ + decimal(c.port as nat) + "/v1"@);
    assert(c.health_text() =~= "http://127.0.0.1:"@ + decimal(c.port as nat) + "/health"@);
}

/// The server is started on the configured port, rendered in decimal right
/// after `--port`, then `-hf <repo>`, and then exactly the custom arguments,
/// in their order; servers configured for different ports are started on
/// different ports.
pub proof fn law_command_carries_port_repo_and_custom(
    port: u16,
    other_port: u16,
    hf_repo: Seq<char>,
    custom: Seq<Seq<char>>,
)
    ensures
        custom_server_args(port, hf_repo, custom).len() == 4 + custom.len(),
        custom_server_args(port, hf_repo, custom)[0] == "--port"@,
        custom_server_args(port, hf_repo, custom)[1] == decimal(port as nat),
        custom_server_args(port, hf_repo, custom)[2] == "-hf"@,
        custom_server_args(port, hf_repo, custom)[3] == hf_repo,
        custom_server_args(port, hf_repo, custom).skip(4) == custom,
        port != other_port ==> custom_server_args(port, hf_repo, custom) != custom_server_args(
            other_port,
            hf_repo,
            custom,
        ),
{
    assert(custom_server_args(port, hf_repo, custom).skip(4) =~= custom);
    if port != other_port && custom_server_args(port, hf_repo, custom) == custom_server_args(
        other_port,
        hf_repo,
        custom,
    ) {
        assert(custom_server_args(port, hf_repo, custom)[1] == custom_server_args(other_port, hf_repo, custom)[1]);
        lemma_decimal_injective(port as nat, other_port as nat);
    }
}

} // verus!
