use llm_daemon::command::ServerPath;
use llm_daemon::node::{daemon_from_artifacts, daemon_with_binary};
use llm_daemon::python::{daemon_from_gguf, daemon_from_model, try_daemon_from_model, Model};

#[test]
fn python_model_handle() {
    let mut h = daemon_from_model(&Model::Phi3_3b, "/srv/server".to_string(), "/home/u");
    assert_eq!(h.endpoint(), "http://127.0.0.1:28283/v1");
    assert_eq!(h.daemon().config().model_path, "/home/u/proj/Phi-3-mini-4k-instruct-q4.gguf");
    assert!(!h.is_entered());
    h.enter();
    assert!(h.is_entered());
    assert!(!h.exit());
    assert!(!h.is_entered());
    assert_eq!(h.endpoint(), "http://127.0.0.1:28283/v1");
    let t = try_daemon_from_model(&Model::Gemma2b, "/srv/server".to_string(), "/home/u").unwrap();
    assert_eq!(t.endpoint(), "http://127.0.0.1:28284/v1");
}

#[test]
fn python_gguf_handle() {
    let h = daemon_from_gguf("/models/a.gguf".to_string(), "/srv/server".to_string()).unwrap();
    let port = h.daemon().config().port;
    assert!((9000..=9255).contains(&port));
    assert_eq!(h.endpoint(), format!("http://127.0.0.1:{}/v1", port));
    let cmd = h.daemon().command("/anything");
    assert_eq!(cmd.program, "/srv/server");
    assert_eq!(cmd.args.last().unwrap(), "/models/a.gguf");
}

#[test]
fn node_daemons() {
    let d = daemon_with_binary("/bin/srv".to_string(), "org/m".to_string(), vec!["-fa".to_string()]);
    assert!(matches!(d.server_path(), ServerPath::Given(p) if p == "/bin/srv"));
    let cmd = d.command("/x");
    assert_eq!(cmd.args.last().unwrap(), "-fa");
    let e = daemon_from_artifacts("org/m".to_string(), vec![], "/work/pkg");
    assert!(matches!(e.server_path(), ServerPath::Given(p) if p == "/work/pkg/artifacts/server"));
    assert_eq!(e.config().port, d.config().port);
    let direct = llm_daemon::Daemon3::new(llm_daemon::Daemon3Params {
        hf_repo: "org/m".to_string(),
        args: None,
        port: None,
        server_binary: None,
    });
    assert_eq!(direct.config().port, d.config().port);
    assert_eq!(direct.sock_file(), d.sock_file());
}
