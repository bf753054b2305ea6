//! A llamafile: a model and its server in one executable.

use vstd::prelude::*;
use crate::command::{arg_texts, push_arg, ServerCommand};
use crate::endpoint::{checked_url, http_url, http_url_text, parsed_url, try_checked_url, url_accepted};
use crate::supervisor::{llamafile_profile, DaemonProfile};
use crate::text::{decimal, decimal_string};

verus! {

/// The settings of the llamafile daemon.
#[derive(Clone, Debug)]
pub struct Config {
    pub llamafile_path: String,
    pub pid_file: String,
    pub stdout: String,
    pub stderr: String,
    pub sock_file: String,
    pub port: u16,
}

impl Config {
    /// `http://127.0.0.1:<port>/v1`, the OpenAI-style API of the server.
    pub open spec fn endpoint_text(&self) -> Seq<char> {
        http_url_text("127.0.0.1"@, self.port, "/v1"@)
    }

    /// The API's URL, as the `url` crate normalises it.
    pub fn endpoint(&self) -> (r: String)
        requires
            url_accepted(self.endpoint_text()),
        ensures
            r@ == parsed_url(self.endpoint_text())->0,
    {
        let text = http_url("127.0.0.1", self.port, "/v1");
        checked_url(text.as_str())
    }

    /// The API's URL, or `None` where the `url` crate rejects it.
    pub fn try_endpoint(&self) -> (r: Option<String>)
        ensures
            r is Some <==> url_accepted(self.endpoint_text()),
            r matches Some(s) ==> s@ == parsed_url(self.endpoint_text())->0,
    {
        let text = http_url("127.0.0.1", self.port, "/v1");
        match try_checked_url(text.as_str()) {
            Some(_) => Some(self.endpoint()),
            None => None,
        }
    }

    /// The default settings, apart from the llamafile's path: files
    /// `/tmp/llamafile-daemon.{pid,stdout,stderr,sock}` and port 8123.
    pub open spec fn has_default_files(&self) -> bool {
        &&& self.pid_file@ == "/tmp/llamafile-daemon.pid"@
        &&& self.stdout@ == "/tmp/llamafile-daemon.stdout"@
        &&& self.stderr@ == "/tmp/llamafile-daemon.stderr"@
        &&& self.sock_file@ == "/tmp/llamafile-daemon.sock"@
        &&& self.port == 8123
    }

    /// The default settings for the llamafile at `llamafile_path`.
    pub fn with_path(llamafile_path: String) -> (c: Config)
        ensures
            c.llamafile_path == llamafile_path,
            c.has_default_files(),
    {
        Config {
            llamafile_path,
            pid_file: String::from_str("/tmp/llamafile-daemon.pid"),
            stdout: String::from_str("/tmp/llamafile-daemon.stdout"),
            stderr: String::from_str("/tmp/llamafile-daemon.stderr"),
            sock_file: String::from_str("/tmp/llamafile-daemon.sock"),
            port: 8123,
        }
    }
}

impl Default for Config {
    /// The default settings, with an empty llamafile path.
    fn default() -> (c: Config)
        ensures
            c.llamafile_path@ == Seq::<char>::empty(),
            c.has_default_files(),
    {
        Config::with_path(String::new())
    }
}

/// The shell command line that starts a llamafile on `port`.
pub open spec fn llamafile_shell_line(path: Seq<char>, port: u16) -> Seq<char> {
    path + " --port "@ + decimal(port as nat) + " -ngl 99 -c 4096 --nobrowser"@
}

/// The daemon of a llamafile.
pub struct Llamafile {
    config: Config,
}

impl Llamafile {
    /// Its settings.
    pub closed spec fn settings(&self) -> Config {
        self.config
    }

    /// The daemon of the llamafile at `path`, with the default settings.
    pub fn from_path(path: String) -> (d: Llamafile)
        ensures
            d.settings().llamafile_path == path,
            d.settings().has_default_files(),
    {
        Llamafile { config: Config::with_path(path) }
    }

    /// Its settings.
    pub fn config(&self) -> (r: &Config)
        ensures
            *r == self.settings(),
    {
        &self.config
    }

    /// The file that receives the daemon's standard output.
    pub fn stdout(&self) -> (r: &String)
        ensures
            *r == self.settings().stdout,
    {
        &self.config.stdout
    }

    /// The file that receives the daemon's standard error.
    pub fn stderr(&self) -> (r: &String)
        ensures
            *r == self.settings().stderr,
    {
        &self.config.stderr
    }

    /// The file that holds the daemon's process id while it runs.
    pub fn pid_file(&self) -> (r: &String)
        ensures
            *r == self.settings().pid_file,
    {
        &self.config.pid_file
    }

    /// The socket on which the daemon takes heartbeats.
    pub fn sock_file(&self) -> (r: &String)
        ensures
            *r == self.settings().sock_file,
    {
        &self.config.sock_file
    }

    /// How the daemon supervises its server.
    pub fn profile(&self) -> (p: DaemonProfile)
        ensures
            p == llamafile_profile(),
    {
        llamafile_profile()
    }

    /// The command that starts the llamafile: through `sh -c`, since a
    /// llamafile is not always directly executable.
    pub fn command(&self) -> (c: ServerCommand)
        ensures
            c.texts() == (
                "sh"@,
                seq!["-c"@, llamafile_shell_line(self.settings().llamafile_path@, self.settings().port)],
            ),
    {
        let mut line = self.config.llamafile_path.clone();
        line.append(" --port ");
        let port = decimal_string(self.config.port as u64);
        line.append(port.as_str());
        line.append(" -ngl 99 -c 4096 --nobrowser");
        let mut args: Vec<String> = Vec::new();
        push_arg(&mut args, "-c");
        push_arg(&mut args, line.as_str());
        let c = ServerCommand { program: String::from_str("sh"), args };
        assert(arg_texts(c.args@) =~= seq!["-c"@, llamafile_shell_line(self.settings().llamafile_path@, self.settings().port)]);
        c
    }
}

/// The llamafile's API lies at `http://127.0.0.1:<port>/v1`, on the
/// configured port.
pub proof fn law_server_url(c: Config)
    ensures
        c.endpoint_text() == "http://127.0.0.1:"@ + decimal(c.port as nat) + "/v1"@,
{
    reveal_strlit("http://");
    reveal_strlit("127.0.0.1");
    reveal_strlit(":");
    reveal_strlit("http://127.0.0.1:");
    assert(c.endpoint_text() =~= "http://127.0.0.1:"@ + decimal(c.port as nat) + "/v1"@);
}

} // verus!
