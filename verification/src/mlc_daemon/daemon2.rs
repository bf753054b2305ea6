//! An mlc-llm server, started through the bootstrap script.

use vstd::prelude::*;
use crate::command::{arg_texts, push_arg};
use crate::endpoint::{checked_url, http_url, http_url_text, parsed_url, try_checked_url, url_accepted};
use crate::supervisor::{mlc_profile, DaemonProfile};
use crate::text::{decimal, decimal_string, lemma_decimal_injective};

verus! {

/// The settings of the mlc-llm daemon.
#[derive(Clone, Debug)]
pub struct DaemonConfig {
    pub sock_file: String,
    pub pid_file: String,
    pub stdout: String,
    pub stderr: String,
    /// The address the server listens on (by default `127.0.0.1`).
    pub host: String,
    /// The port the server listens on (by default 8000).
    pub port: u16,
    /// The model the server runs (by default
    /// `HF://mlc-ai/gemma-2b-it-q4f16_1-MLC`).
    pub model: String,
}

impl DaemonConfig {
    /// `http://<host>:<port>/v1/completions`, where the server completes text.
    pub open spec fn endpoint_text(&self) -> Seq<char> {
        http_url_text(self.host@, self.port, "/v1/completions"@)
    }

    /// The completion URL, as the `url` crate normalises it.
    pub fn endpoint(&self) -> (r: String)
        requires
            url_accepted(self.endpoint_text()),
        ensures
            r@ == parsed_url(self.endpoint_text())->0,
    {
        let text = http_url(self.host.as_str(), self.port, "/v1/completions");
        checked_url(text.as_str())
    }

    /// The completion URL, or `None` where the `url` crate rejects it (as for
    /// a host with a space in it).
    pub fn try_endpoint(&self) -> (r: Option<String>)
        ensures
            r is Some <==> url_accepted(self.endpoint_text()),
            r matches Some(s) ==> s@ == parsed_url(self.endpoint_text())->0,
    {
        let text = http_url(self.host.as_str(), self.port, "/v1/completions");
        match try_checked_url(text.as_str()) {
            Some(_) => Some(self.endpoint()),
            None => None,
        }
    }

    /// These are the default settings.
    pub open spec fn is_default(&self) -> bool {
        &&& self.sock_file@ == "/tmp/mlc-daemon2.sock"@
        &&& self.pid_file@ == "/tmp/mlc-daemon2.pid"@
        &&& self.stdout@ == "/tmp/mlc-daemon2.stdout"@
        &&& self.stderr@ == "/tmp/mlc-daemon2.stderr"@
        &&& self.host@ == "127.0.0.1"@
        &&& self.port == 8000
        &&& self.model@ == "HF://mlc-ai/gemma-2b-it-q4f16_1-MLC"@
    }
}

impl Default for DaemonConfig {
    /// Gemma 2B on `127.0.0.1:8000`, with files `/tmp/mlc-daemon2.*`.
    fn default() -> (c: DaemonConfig)
        ensures
            c.is_default(),
    {
        DaemonConfig {
            sock_file: String::from_str("/tmp/mlc-daemon2.sock"),
            pid_file: String::from_str("/tmp/mlc-daemon2.pid"),
            stdout: String::from_str("/tmp/mlc-daemon2.stdout"),
            stderr: String::from_str("/tmp/mlc-daemon2.stderr"),
            host: String::from_str("127.0.0.1"),
            port: 8000,
            model: String::from_str("HF://mlc-ai/gemma-2b-it-q4f16_1-MLC"),
        }
    }
}

/// The arguments handed to the bootstrap script.
pub open spec fn mlc_server_args(model: Seq<char>, host: Seq<char>, port: u16) -> Seq<Seq<char>> {
    seq![model, "--host"@, host, "--port"@, decimal(port as nat)]
}

/// The bootstrap script is handed the model first, then `--host <host>`
/// and `--port <port>`, the port rendered in decimal; so servers configured
/// for different ports are started on different ports.
pub proof fn law_server_args_carry_the_settings(
    model: Seq<char>,
    host: Seq<char>,
    port: u16,
    other_port: u16,
)
    ensures
        mlc_server_args(model, host, port).len() == 5,
        mlc_server_args(model, host, port)[0] == model,
        mlc_server_args(model, host, port)[1] == "--host"@,
        mlc_server_args(model, host, port)[2] == host,
        mlc_server_args(model, host, port)[3] == "--port"@,
        mlc_server_args(model, host, port)[4] == decimal(port as nat),
        port != other_port ==> mlc_server_args(model, host, port) != mlc_server_args(
            model,
            host,
            other_port,
        ),
{
    if port != other_port && mlc_server_args(model, host, port) == mlc_server_args(
        model,
        host,
        other_port,
    ) {
        assert(mlc_server_args(model, host, port)[4] == mlc_server_args(model, host, other_port)[4]);
        lemma_decimal_injective(port as nat, other_port as nat);
    }
}

/// The daemon of an mlc-llm server.
pub struct Daemon {
    config: DaemonConfig,
}

impl Daemon {
    /// Its settings.
    pub closed spec fn settings(&self) -> DaemonConfig {
        self.config
    }

    /// The daemon with the settings `config`.
    pub fn new(config: DaemonConfig) -> (d: Daemon)
        ensures
            d.settings() == config,
    {
        Daemon { config }
    }

    /// Its settings.
    pub fn config(&self) -> (r: &DaemonConfig)
        ensures
            *r == self.settings(),
    {
        &self.config
    }

    /// How the daemon supervises its server.
    pub fn profile(&self) -> (p: DaemonProfile)
        ensures
            p == mlc_profile(),
    {
        mlc_profile()
    }

    /// The arguments with which the bootstrap script starts the server:
    /// `<model> --host <host> --port <port>`.
    pub fn server_args(&self) -> (args: Vec<String>)
        ensures
            arg_texts(args@) == mlc_server_args(
                self.settings().model@,
                self.settings().host@,
                self.settings().port,
            ),
            args@.len() == 5,
            args@[4]@ == decimal(self.settings().port as nat),
            args@[0]@ == self.settings().model@,
            args@[2]@ == self.settings().host@,
    {
        let mut args: Vec<String> = Vec::new();
        push_arg(&mut args, self.config.model.as_str());
        push_arg(&mut args, "--host");
        push_arg(&mut args, self.config.host.as_str());
        push_arg(&mut args, "--port");
        let port = decimal_string(self.config.port as u64);
        push_arg(&mut args, port.as_str());
        assert(arg_texts(args@) =~= mlc_server_args(
            self.settings().model@,
            self.settings().host@,
            self.settings().port,
        ));
        proof {
            law_server_args_carry_the_settings(
                self.settings().model@,
                self.settings().host@,
                self.settings().port,
                self.settings().port,
            );
            assert(arg_texts(args@)[4] == args@[4]@);
            assert(arg_texts(args@)[0] == args@[0]@);
            assert(arg_texts(args@)[2] == args@[2]@);
        }
        args
    }
}

/// The mlc-llm server completes text at
/// `http://<host>:<port>/v1/completions`, on the configured host and port.
pub proof fn law_server_url(c: DaemonConfig)
    ensures
        c.endpoint_text() == "http://"@ + c.host@ + ":"@ + decimal(c.port as nat)
            + "/v1/completions"@,
{
}

} // verus!
