//! A llama.cpp server that serves a model file.

use vstd::prelude::*;
use crate::command::{arg_texts, push_arg, ServerCommand, ServerPath};
use crate::endpoint::{checked_url, http_url, http_url_text, parsed_url, try_checked_url, url_accepted};
use crate::paths::{join, join_path, port_file, port_file_path};
use crate::port::{default_hash_of_path, hashed_port, port_from_hash};
use crate::supervisor::{llama_server_profile, DaemonProfile};
use crate::text::{decimal, decimal_string, lemma_decimal_injective};

verus! {

/// The settings of one llama.cpp daemon.
#[derive(Clone, Debug)]
pub struct LlamaConfig {
    pub model_path: String,
    pub pid_file: String,
    pub stdout: String,
    pub stderr: String,
    pub sock_file: String,
    pub port: u16,
}

impl LlamaConfig {
    /// `http://127.0.0.1:<port>/v1`, the OpenAI-style API of the server.
    pub open spec fn endpoint_text(&self) -> Seq<char> {
        http_url_text("127.0.0.1"@, self.port, "/v1"@)
    }

    /// `http://127.0.0.1:<port>/health`, where the server reports readiness.
    pub open spec fn health_text(&self) -> Seq<char> {
        http_url_text("127.0.0.1"@, self.port, "/health"@)
    }

    /// The API's URL, as the `url` crate normalises it.
    pub fn endpoint(&self) -> (r: String)
        requires
            url_accepted(self.endpoint_text()),
        ensures
            r@ == parsed_url(self.endpoint_text())->0,
    {
        let text = http_url("127.0.0.1", self.port, "/v1");
        checked_url(text.as_str())
    }

    /// The API's URL, or `None` where the `url` crate rejects it.
    pub fn try_endpoint(&self) -> (r: Option<String>)
        ensures
            r is Some <==> url_accepted(self.endpoint_text()),
            r matches Some(s) ==> s@ == parsed_url(self.endpoint_text())->0,
    {
        let text = http_url("127.0.0.1", self.port, "/v1");
        match try_checked_url(text.as_str()) {
            Some(_) => Some(self.endpoint()),
            None => None,
        }
    }

    /// The health check's URL, as the `url` crate normalises it.
    pub fn health_url(&self) -> (r: String)
        requires
            url_accepted(self.health_text()),
        ensures
            r@ == parsed_url(self.health_text())->0,
    {
        let text = http_url("127.0.0.1", self.port, "/health");
        checked_url(text.as_str())
    }

    /// The health check's URL, or `None` where the `url` crate rejects it.
    pub fn try_health_url(&self) -> (r: Option<String>)
        ensures
            r is Some <==> url_accepted(self.health_text()),
            r matches Some(s) ==> s@ == parsed_url(self.health_text())->0,
    {
        let text = http_url("127.0.0.1", self.port, "/health");
        match try_checked_url(text.as_str()) {
            Some(_) => Some(self.health_url()),
            None => None,
        }
    }

    /// The daemon's files are `/tmp/llm-<port>.{pid,stdout,stderr,sock}`.
    pub open spec fn has_port_files(&self) -> bool {
        &&& self.pid_file@ == port_file_path(self.port, "pid"@)
        &&& self.stdout@ == port_file_path(self.port, "stdout"@)
        &&& self.stderr@ == port_file_path(self.port, "stderr"@)
        &&& self.sock_file@ == port_file_path(self.port, "sock"@)
    }
}

/// The models with settings of their own.
#[derive(Clone, Copy, Debug, PartialEq, Eq, Hash, Structural)]
pub enum LlamaConfigs {
    Llama3,
    Phi3,
    Gemma2b,
}

/// The stem of a preset's file names.
pub open spec fn preset_stem(which: LlamaConfigs) -> Seq<char> {
    match which {
        LlamaConfigs::Llama3 => "llama3"@,
        LlamaConfigs::Phi3 => "phi3"@,
        LlamaConfigs::Gemma2b => "gemma2b"@,
    }
}

/// The model file of a preset, relative to the home directory.
pub open spec fn preset_model(which: LlamaConfigs) -> Seq<char> {
    match which {
        LlamaConfigs::Llama3 => "proj/Meta-Llama-3-8B-Instruct-Q5_K_M.gguf"@,
        LlamaConfigs::Phi3 => "proj/Phi-3-mini-4k-instruct-q4.gguf"@,
        LlamaConfigs::Gemma2b => "proj/gemma-2b-it-Q5_K_M.gguf"@,
    }
}

/// The port of a preset.
pub open spec fn preset_port(which: LlamaConfigs) -> u16 {
    match which {
        LlamaConfigs::Llama3 => 28282,
        LlamaConfigs::Phi3 => 28283,
        LlamaConfigs::Gemma2b => 28284,
    }
}

/// The file `/tmp/<stem>-llamacpp.<ext>` of a preset.
pub open spec fn preset_file_path(which: LlamaConfigs, ext: Seq<char>) -> Seq<char> {
    "/tmp/"@ + preset_stem(which) + "-llamacpp."@ + ext
}

/// `config` is the preset `which` for the home directory `home`.
pub open spec fn is_preset(config: LlamaConfig, which: LlamaConfigs, home: Seq<char>) -> bool {
    &&& config.model_path@ == join_path(home, preset_model(which))
    &&& config.pid_file@ == preset_file_path(which, "pid"@)
    &&& config.stdout@ == preset_file_path(which, "stdout"@)
    &&& config.stderr@ == preset_file_path(which, "stderr"@)
    &&& config.sock_file@ == preset_file_path(which, "sock"@)
    &&& config.port == preset_port(which)
}

/// Each preset has daemon files of its own, named after its model
/// (`/tmp/llama3-llamacpp.*`, `/tmp/phi3-llamacpp.*`,
/// `/tmp/gemma2b-llamacpp.*`), a port of its own and a model file of its
/// own, so that the presets run side by side and a heartbeat reaches the
/// daemon it is meant for.
pub proof fn law_presets_are_apart(which: LlamaConfigs, other: LlamaConfigs, ext: Seq<char>, ext2: Seq<
    char,
>)
    ensures
        preset_file_path(LlamaConfigs::Llama3, ext) == "/tmp/llama3-llamacpp."@ + ext,
        preset_file_path(LlamaConfigs::Phi3, ext) == "/tmp/phi3-llamacpp."@ + ext,
        preset_file_path(LlamaConfigs::Gemma2b, ext) == "/tmp/gemma2b-llamacpp."@ + ext,
        which != other ==> preset_file_path(which, ext) != preset_file_path(other, ext2),
        which != other ==> preset_port(which) != preset_port(other),
        which != other ==> preset_model(which) != preset_model(other),
{
    reveal_strlit("/tmp/");
    reveal_strlit("-llamacpp.");
    reveal_strlit("llama3");
    reveal_strlit("phi3");
    reveal_strlit("gemma2b");
    reveal_strlit("/tmp/llama3-llamacpp.");
    reveal_strlit("/tmp/phi3-llamacpp.");
    reveal_strlit("/tmp/gemma2b-llamacpp.");
    reveal_strlit("proj/Meta-Llama-3-8B-Instruct-Q5_K_M.gguf");
    reveal_strlit("proj/Phi-3-mini-4k-instruct-q4.gguf");
    reveal_strlit("proj/gemma-2b-it-Q5_K_M.gguf");
    assert(preset_file_path(LlamaConfigs::Llama3, ext) =~= "/tmp/llama3-llamacpp."@ + ext);
    assert(preset_file_path(LlamaConfigs::Phi3, ext) =~= "/tmp/phi3-llamacpp."@ + ext);
    assert(preset_file_path(LlamaConfigs::Gemma2b, ext) =~= "/tmp/gemma2b-llamacpp."@ + ext);
    // The names differ in the first letter of the stem, at index 5.
    assert(preset_file_path(which, ext)[5] == preset_stem(which)[0]);
    assert(preset_file_path(other, ext2)[5] == preset_stem(other)[0]);
    if which != other {
        assert(preset_file_path(which, ext)[5] != preset_file_path(other, ext2)[5]);
        // The model files differ at index 5 as well ('M', 'P', 'g').
        assert(preset_model(which)[5] != preset_model(other)[5]);
    }
}

fn preset_stem_str(which: LlamaConfigs) -> (r: &'static str)
    ensures
        r@ == preset_stem(which),
{
    match which {
        LlamaConfigs::Llama3 => "llama3",
        LlamaConfigs::Phi3 => "phi3",
        LlamaConfigs::Gemma2b => "gemma2b",
    }
}

fn preset_model_str(which: LlamaConfigs) -> (r: &'static str)
    ensures
        r@ == preset_model(which),
{
    match which {
        LlamaConfigs::Llama3 => "proj/Meta-Llama-3-8B-Instruct-Q5_K_M.gguf",
        LlamaConfigs::Phi3 => "proj/Phi-3-mini-4k-instruct-q4.gguf",
        LlamaConfigs::Gemma2b => "proj/gemma-2b-it-Q5_K_M.gguf",
    }
}

fn preset_file(which: LlamaConfigs, ext: &str) -> (r: String)
    ensures
        r@ == preset_file_path(which, ext@),
{
    let mut r = String::from_str("/tmp/");
    r.append(preset_stem_str(which));
    r.append("-llamacpp.");
    r.append(ext);
    r
}

/// The settings of the preset `which`, with its model file under `home`.
pub fn llama_config(which: LlamaConfigs, home: &str) -> (config: LlamaConfig)
    ensures
        is_preset(config, which, home@),
{
    let port: u16 = match which {
        LlamaConfigs::Llama3 => 28282,
        LlamaConfigs::Phi3 => 28283,
        LlamaConfigs::Gemma2b => 28284,
    };
    LlamaConfig {
        model_path: join(home, preset_model_str(which)),
        pid_file: preset_file(which, "pid"),
        stdout: preset_file(which, "stdout"),
        stderr: preset_file(which, "stderr"),
        sock_file: preset_file(which, "sock"),
        port,
    }
}

/// Every preset with its settings, for the home directory `home`: Llama 3,
/// Phi-3 and Gemma 2B, in that order.
pub fn llama_config_map(home: &str) -> (map: Vec<(LlamaConfigs, LlamaConfig)>)
    ensures
        map@.len() == 3,
        map@[0].0 == LlamaConfigs::Llama3,
        map@[1].0 == LlamaConfigs::Phi3,
        map@[2].0 == LlamaConfigs::Gemma2b,
        forall|i: int| 0 <= i < 3 ==> is_preset(#[trigger] map@[i].1, map@[i].0, home@),
{
    let mut map: Vec<(LlamaConfigs, LlamaConfig)> = Vec::new();
    map.push((LlamaConfigs::Llama3, llama_config(LlamaConfigs::Llama3, home)));
    map.push((LlamaConfigs::Phi3, llama_config(LlamaConfigs::Phi3, home)));
    map.push((LlamaConfigs::Gemma2b, llama_config(LlamaConfigs::Gemma2b, home)));
    map
}

/// The arguments that start a llama.cpp server on `port` with a model file.
pub open spec fn model_server_args(port: u16, model_path: Seq<char>) -> Seq<Seq<char>> {
    seq![
        "--port"@,
        decimal(port as nat),
        "-ngl"@,
        "200"@,
        "-c"@,
        "8192"@,
        "-m"@,
        model_path,
    ]
}

/// A daemon that runs a llama.cpp server on a model file.
#[derive(Clone, Debug)]
pub struct Daemon {
    server_path: ServerPath,
    config: LlamaConfig,
}

impl Daemon {
    /// Where its server binary lies.
    pub closed spec fn server(&self) -> ServerPath {
        self.server_path
    }

    /// Its settings.
    pub closed spec fn settings(&self) -> LlamaConfig {
        self.config
    }

    /// A daemon with the settings `config` whose server binary lies beside the
    /// running executable.
    pub fn new(config: LlamaConfig) -> (d: Daemon)
        ensures
            d.server() == ServerPath::BesideExecutable,
            d.settings() == config,
    {
        Daemon { server_path: ServerPath::BesideExecutable, config }
    }

    /// A daemon with the settings `config` and the server binary at
    /// `server_path`.
    pub fn with_server(config: LlamaConfig, server_path: String) -> (d: Daemon)
        ensures
            d.server() == ServerPath::Given(server_path),
            d.settings() == config,
    {
        Daemon { server_path: ServerPath::Given(server_path), config }
    }

    /// The daemon for the model file at `model_path` when its path hashes to
    /// `hash`: port `9000 + (hash & 0xff)`, files `/tmp/llm-<port>.*`.
    pub fn from_hash(model_path: String, server_path: ServerPath, hash: u64) -> (d: Daemon)
        ensures
            d.server() == server_path,
            d.settings().model_path == model_path,
            d.settings().port == hashed_port(hash),
            d.settings().has_port_files(),
    {
        let port = port_from_hash(hash);
        Daemon {
            server_path,
            config: LlamaConfig {
                model_path,
                pid_file: port_file(port, "pid"),
                stdout: port_file(port, "stdout"),
                stderr: port_file(port, "stderr"),
                sock_file: port_file(port, "sock"),
                port,
            },
        }
    }

    /// The daemon for the model file at `model_path` with the server binary
    /// at `server_path`; its port comes from the hash of the model's path.
    pub fn from_model_and_server(model_path: String, server_path: String) -> (d: Daemon)
        ensures
            d.server() == ServerPath::Given(server_path),
            d.settings().model_path == model_path,
            9000 <= d.settings().port <= 9255,
            d.settings().has_port_files(),
    {
        let hash = default_hash_of_path(model_path.as_str());
        Daemon::from_hash(model_path, ServerPath::Given(server_path), hash)
    }

    /// The daemon for the model file at `model_path` whose server binary lies
    /// beside the running executable; its port comes from the hash of the
    /// model's path.
    pub fn from_model_path(model_path: String) -> (d: Daemon)
        ensures
            d.server() == ServerPath::BesideExecutable,
            d.settings().model_path == model_path,
            9000 <= d.settings().port <= 9255,
            d.settings().has_port_files(),
    {
        let hash = default_hash_of_path(model_path.as_str());
        Daemon::from_hash(model_path, ServerPath::BesideExecutable, hash)
    }

    /// Its settings.
    pub fn config(&self) -> (r: &LlamaConfig)
        ensures
            *r == self.settings(),
    {
        &self.config
    }

    /// Where its server binary lies.
    pub fn server_path(&self) -> (r: &ServerPath)
        ensures
            *r == self.server(),
    {
        &self.server_path
    }

    /// The file that receives the daemon's standard output.
    pub fn stdout(&self) -> (r: &String)
        ensures
            *r == self.settings().stdout,
    {
        &self.config.stdout
    }

    /// The file that receives the daemon's standard error.
    pub fn stderr(&self) -> (r: &String)
        ensures
            *r == self.settings().stderr,
    {
        &self.config.stderr
    }

    /// The file that holds the daemon's process id while it runs.
    pub fn pid_file(&self) -> (r: &String)
        ensures
            *r == self.settings().pid_file,
    {
        &self.config.pid_file
    }

    /// The socket on which the daemon takes heartbeats.
    pub fn sock_file(&self) -> (r: &String)
        ensures
            *r == self.settings().sock_file,
    {
        &self.config.sock_file
    }

    /// How the daemon supervises its server.
    pub fn profile(&self) -> (p: DaemonProfile)
        ensures
            p == llama_server_profile(),
    {
        llama_server_profile()
    }

    /// The command that starts the server, for the running executable at
    /// `exe`: the server binary with
    /// `--port <port> -ngl 200 -c 8192 -m <model>`.
    pub fn command(&self, exe: &str) -> (c: ServerCommand)
        ensures
            c.texts() == (
                self.server().resolved(exe@, false),
                model_server_args(self.settings().port, self.settings().model_path@),
            ),
    {
        let program = self.server_path.resolve(exe, false);
        let mut args: Vec<String> = Vec::new();
        push_arg(&mut args, "--port");
        let port = decimal_string(self.config.port as u64);
        push_arg(&mut args, port.as_str());
        push_arg(&mut args, "-ngl");
        push_arg(&mut args, "200");
        push_arg(&mut args, "-c");
        push_arg(&mut args, "8192");
        push_arg(&mut args, "-m");
        push_arg(&mut args, self.config.model_path.as_str());
        let c = ServerCommand { program, args };
        assert(arg_texts(c.args@) =~= model_server_args(self.settings().port, self.settings().model_path@));
        c
    }
}

/// The server's API lies at `http://127.0.0.1:<port>/v1` and its health
/// check at `http://127.0.0.1:<port>/health` (recent llama.cpp answers a
/// `GET` on the old completion path with 405), both on the configured port.
pub proof fn law_server_urls(c: LlamaConfig)
    ensures
        c.endpoint_text() == "http://127.0.0.1:"@ + decimal(c.port as nat) + "/v1"@,
        c.health_text() == "http://127.0.0.1:"@ + decimal(c.port as nat) + "/health"@,
{
    reveal_strlit("http://");
    reveal_strlit("127.0.0.1");
    reveal_strlit(":");
    reveal_strlit("http://127.0.0.1:");
    assert(c.endpoint_text() =~= "http://127.0.0.1:"@ + decimal(c.port as nat) + "/v1"@);
    assert(c.health_text() =~= "http://127.0.0.1:"@ + decimal(c.port as nat) + "/health"@);
}

/// The server is started on the configured port, rendered in decimal right
/// after `--port`, with the model file last; servers configured for
/// different ports are started on different ports.
pub proof fn law_command_carries_port_and_model(port: u16, other_port: u16, model_path: Seq<char>)
    ensures
        model_server_args(port, model_path).len() == 8,
        model_server_args(port, model_path)[0] == "--port"@,
        model_server_args(port, model_path)[1] == decimal(port as nat),
        model_server_args(port, model_path)[6] == "-m"@,
        model_server_args(port, model_path)[7] == model_path,
        port != other_port ==> model_server_args(port, model_path) != model_server_args(
            other_port,
            model_path,
        ),
{
    if port != other_port && model_server_args(port, model_path) == model_server_args(other_port, model_path) {
        assert(model_server_args(port, model_path)[1] == model_server_args(other_port, model_path)[1]);
        lemma_decimal_injective(port as nat, other_port as nat);
    }
}

} // verus!
