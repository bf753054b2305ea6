//! What the Python module offers: a daemon for a preset model or a model
//! file, used as a context manager that holds the daemon alive while inside.

use vstd::prelude::*;
use crate::command::ServerPath;
use crate::endpoint::{http_url_text, parsed_url, url_accepted};
use crate::text::{decimal, digit_char, lemma_decimal_injective};
use crate::llama_daemon::daemon::{is_preset, llama_config, preset_model, preset_port, Daemon, LlamaConfigs};

verus! {

/// The preset models offered to Python.
#[allow(non_camel_case_types)]
#[derive(Clone, Copy, Debug, PartialEq, Eq, Structural)]
pub enum Model {
    Llama3_8b,
    Phi3_3b,
    Gemma2b,
}

/// The preset behind a model.
pub open spec fn preset_of(model: Model) -> LlamaConfigs {
    match model {
        Model::Llama3_8b => LlamaConfigs::Llama3,
        Model::Phi3_3b => LlamaConfigs::Phi3,
        Model::Gemma2b => LlamaConfigs::Gemma2b,
    }
}

/// A daemon, its API's URL, and whether a `with` block holds it.
pub struct DaemonHandle {
    daemon: Daemon,
    entered: bool,
    endpoint: String,
}

impl DaemonHandle {
    /// The daemon it holds.
    pub closed spec fn held(&self) -> Daemon {
        self.daemon
    }

    /// Whether a `with` block is inside.
    pub closed spec fn inside(&self) -> bool {
        self.entered
    }

    /// The URL it reports.
    pub closed spec fn url(&self) -> Seq<char> {
        self.endpoint@
    }

    /// The daemon it holds.
    pub fn daemon(&self) -> (r: &Daemon)
        ensures
            *r == self.held(),
    {
        &self.daemon
    }

    /// The API's URL of the daemon.
    pub fn endpoint(&self) -> (r: String)
        ensures
            r@ == self.url(),
    {
        self.endpoint.clone()
    }

    /// Whether a `with` block is inside.
    pub fn is_entered(&self) -> (r: bool)
        ensures
            r == self.inside(),
    {
        self.entered
    }

    /// Enters the `with` block (the daemon has been forked and the heartbeat
    /// started by the caller). A handle is entered only once at a time.
    pub fn enter(&mut self)
        requires
            !old(self).inside(),
        ensures
            final(self).inside(),
            final(self).held() == old(self).held(),
            final(self).url() == old(self).url(),
    {
        self.entered = true;
    }

    /// Leaves the `with` block (the caller stops the heartbeat); exceptions
    /// raised inside are not suppressed, so the answer is `false`.
    pub fn exit(&mut self) -> (suppress: bool)
        requires
            old(self).inside(),
        ensures
            !final(self).inside(),
            final(self).held() == old(self).held(),
            final(self).url() == old(self).url(),
            !suppress,
    {
        self.entered = false;
        false
    }
}

/// The API's URL of a preset model's server, as text.
pub open spec fn preset_endpoint_text(model: Model) -> Seq<char> {
    http_url_text("127.0.0.1"@, preset_port(preset_of(model)), "/v1"@)
}

/// The handle of the daemon for a preset model, whose server binary lies at
/// `server_path`; its URL is that of the preset's API.
pub fn daemon_from_model(model: &Model, server_path: String, home: &str) -> (h: DaemonHandle)
    requires
        url_accepted(preset_endpoint_text(*model)),
    ensures
        is_preset(h.held().settings(), preset_of(*model), home@),
        h.held().server() == ServerPath::Given(server_path),
        h.url() == parsed_url(h.held().settings().endpoint_text())->0,
        !h.inside(),
{
    let which = match model {
        Model::Llama3_8b => LlamaConfigs::Llama3,
        Model::Phi3_3b => LlamaConfigs::Phi3,
        Model::Gemma2b => LlamaConfigs::Gemma2b,
    };
    let conf = llama_config(which, home);
    let endpoint = conf.endpoint();
    let daemon = Daemon::with_server(conf, server_path);
    DaemonHandle { daemon, entered: false, endpoint }
}

/// The handle of the daemon for a preset model (see [`daemon_from_model`]),
/// or `None` where the `url` crate rejects the preset's URL.
pub fn try_daemon_from_model(model: &Model, server_path: String, home: &str) -> (h: Option<
    DaemonHandle,
>)
    ensures
        h is Some <==> url_accepted(preset_endpoint_text(*model)),
        h matches Some(h) ==> {
            &&& is_preset(h.held().settings(), preset_of(*model), home@)
            &&& h.held().server() == ServerPath::Given(server_path)
            &&& h.url() == parsed_url(h.held().settings().endpoint_text())->0
            &&& !h.inside()
        },
{
    let which = match model {
        Model::Llama3_8b => LlamaConfigs::Llama3,
        Model::Phi3_3b => LlamaConfigs::Phi3,
        Model::Gemma2b => LlamaConfigs::Gemma2b,
    };
    let conf = llama_config(which, home);
    match conf.try_endpoint() {
        Some(_) => Some(daemon_from_model(model, server_path, home)),
        None => None,
    }
}

/// The handle of the daemon for the model file at `model_path`, whose server
/// binary lies at `server_path`; its port comes from the hash of the model's
/// path, and its URL is that of the API on that port. `None` where the `url`
/// crate rejects that URL.
pub fn daemon_from_gguf(model_path: String, server_path: String) -> (h: Option<DaemonHandle>)
    ensures
        h matches Some(h) ==> {
            &&& h.held().settings().model_path == model_path
            &&& h.held().server() == ServerPath::Given(server_path)
            &&& 9000 <= h.held().settings().port <= 9255
            &&& h.held().settings().has_port_files()
            &&& url_accepted(h.held().settings().endpoint_text())
            &&& h.url() == parsed_url(h.held().settings().endpoint_text())->0
            &&& !h.inside()
        },
        h is None ==> exists|port: u16|
            9000 <= port <= 9255 && !url_accepted(
                #[trigger] http_url_text("127.0.0.1"@, port, "/v1"@),
            ),
{
    let daemon = Daemon::from_model_and_server(model_path, server_path);
    match daemon.config().try_endpoint() {
        Some(endpoint) => Some(DaemonHandle { daemon, entered: false, endpoint }),
        None => None,
    }
}

/// Each Python model stands for its namesake preset, and different models
/// for different presets: Llama 3 8B on port 28282 with the Meta-Llama-3
/// model file, Phi-3 on 28283, Gemma 2B on 28284.
pub proof fn law_models_are_their_namesakes(model: Model, other: Model)
    ensures
        preset_of(Model::Llama3_8b) == LlamaConfigs::Llama3,
        preset_of(Model::Phi3_3b) == LlamaConfigs::Phi3,
        preset_of(Model::Gemma2b) == LlamaConfigs::Gemma2b,
        preset_port(preset_of(Model::Llama3_8b)) == 28282,
        preset_port(preset_of(Model::Phi3_3b)) == 28283,
        preset_port(preset_of(Model::Gemma2b)) == 28284,
        preset_model(preset_of(Model::Llama3_8b)) == "proj/Meta-Llama-3-8B-Instruct-Q5_K_M.gguf"@,
        model != other ==> preset_of(model) != preset_of(other),
        model != other ==> preset_endpoint_text(model) != preset_endpoint_text(other),
{
    if model != other {
        let (p1, p2) = (preset_port(preset_of(model)), preset_port(preset_of(other)));
        assert(p1 != p2);
        let t1 = preset_endpoint_text(model);
        let t2 = preset_endpoint_text(other);
        reveal_strlit("http://");
        reveal_strlit("127.0.0.1");
        reveal_strlit(":");
        reveal_strlit("/v1");
        if t1 == t2 {
            // "http://127.0.0.1:" is 17 characters, and every preset port has
            // five digits, which come right after it.
            assert(decimal(p1 as nat) =~= t1.subrange(17, 22)) by {
                lemma_five_digits(p1);
            }
            assert(decimal(p2 as nat) =~= t2.subrange(17, 22)) by {
                lemma_five_digits(p2);
            }
            lemma_decimal_injective(p1 as nat, p2 as nat);
        }
    }
}

proof fn lemma_five_digits(p: u16)
    requires
        10000 <= p,
    ensures
        decimal(p as nat).len() == 5,
{
    let n = p as nat;
    assert(decimal(n / 10000) == seq![digit_char(n / 10000)]);
    assert(decimal(n / 1000).len() == 2);
    assert(decimal(n / 100).len() == 3);
    assert(decimal(n / 10).len() == 4);
}

} // verus!
