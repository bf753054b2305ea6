use llm_daemon::command::ServerPath;
use llm_daemon::llama_daemon::daemon2::Daemon;
use llm_daemon::{llama_config_map, Daemon3, Daemon3Params, LlamaConfigs, LlamaDaemon};

fn texts(args: &[String]) -> Vec<&str> {
    args.iter().map(|a| a.as_str()).collect()
}

#[test]
fn daemon_launch_daemon() {
    let map = llama_config_map("/home/user");
    let gemma = map
        .iter()
        .find(|(which, _)| *which == LlamaConfigs::Gemma2b)
        .map(|(_, config)| config.clone())
        .expect("gemma preset");
    let daemon = LlamaDaemon::new(gemma);
    let cmd = daemon.command("/opt/app/bin/tool");
    assert_eq!(cmd.program, "/opt/app/bin/server");
    assert_eq!(
        texts(&cmd.args),
        vec!["--port", "28284", "-ngl", "200", "-c", "8192", "-m", "/home/user/proj/gemma-2b-it-Q5_K_M.gguf"]
    );
    assert_eq!(daemon.pid_file(), "/tmp/gemma2b-llamacpp.pid");
    assert_eq!(daemon.sock_file(), "/tmp/gemma2b-llamacpp.sock");
}

#[test]
fn daemon2_launch_daemon() {
    let daemon: Daemon = Daemon::from_repo("microsoft/Phi-3-mini-4k-instruct-gguf".to_string());
    let port = daemon.config().port;
    assert!((9000..=9255).contains(&port));
    assert_eq!(daemon.pid_file(), &format!("/tmp/llm-{}.pid", port));
    assert_eq!(daemon.stdout(), &format!("/tmp/llm-{}.stdout", port));
    assert_eq!(daemon.stderr(), &format!("/tmp/llm-{}.stderr", port));
    assert_eq!(daemon.sock_file(), &format!("/tmp/llm-{}.sock", port));
    let cmd = daemon.command("/work/target/debug/deps/launch-123");
    assert_eq!(cmd.program, "/work/target/debug/server");
    let port_text = port.to_string();
    assert_eq!(
        texts(&cmd.args),
        vec![
            "--port",
            port_text.as_str(),
            "-ngl",
            "200",
            "-c",
            "8192",
            "--hf-repo",
            "microsoft/Phi-3-mini-4k-instruct-gguf"
        ]
    );
}

#[test]
fn daemon3_launch_daemon() {
    let daemon = Daemon3::new(Daemon3Params {
        hf_repo: "microsoft/Phi-3-mini-4k-instruct-gguf".to_string(),
        args: Some(vec!["-ngl".to_string(), "99".to_string(), "-fa".to_string()]),
        port: None,
        server_binary: None,
    });
    let port = daemon.config().port;
    assert!((9000..=9255).contains(&port));
    assert_eq!(daemon.sock_file(), &format!("/tmp/llm-{}.sock", port));
    let cmd = daemon.command("/work/target/debug/examples/demo");
    assert_eq!(cmd.program, "/work/target/debug/server");
    let port_text = port.to_string();
    assert_eq!(
        texts(&cmd.args),
        vec!["--port", port_text.as_str(), "-hf", "microsoft/Phi-3-mini-4k-instruct-gguf", "-ngl", "99", "-fa"]
    );
}

#[test]
fn same_repo_same_port() {
    let a = Daemon::from_repo("microsoft/Phi-3-mini-4k-instruct-gguf".to_string());
    let b = Daemon3::new(Daemon3Params {
        hf_repo: "microsoft/Phi-3-mini-4k-instruct-gguf".to_string(),
        args: None,
        port: None,
        server_binary: None,
    });
    assert_eq!(a.config().port, b.config().port);
}

#[test]
fn hashed_port_formula() {
    assert_eq!(llm_daemon::port::port_from_hash(0), 9000);
    assert_eq!(llm_daemon::port::port_from_hash(0x1ff), 9255);
    assert_eq!(llm_daemon::port::port_from_hash(0xabcd_0012), 9018);
    let d = Daemon::from_hash("x".to_string(), 0x105);
    assert_eq!(d.config().port, 9005);
    assert_eq!(d.pid_file(), "/tmp/llm-9005.pid");
}

#[test]
fn daemon3_with_port_and_binary() {
    let daemon = Daemon3::new(Daemon3Params {
        hf_repo: "org/model".to_string(),
        args: None,
        port: Some(8080),
        server_binary: Some("/usr/local/bin/llama-server".to_string()),
    });
    let cmd = daemon.command("/ignored/bin/tool");
    assert_eq!(cmd.program, "/usr/local/bin/llama-server");
    assert_eq!(texts(&cmd.args), vec!["--port", "8080", "-hf", "org/model"]);
    assert_eq!(daemon.stdout(), "/tmp/llm-8080.stdout");
    #[allow(deprecated)]
    let old = Daemon3::with_port("org/model".to_string(), 7000, vec!["--jinja".to_string()]);
    assert_eq!(texts(&old.command("/a/b").args), vec!["--port", "7000", "-hf", "org/model", "--jinja"]);
    assert!(matches!(old.server_path(), ServerPath::BesideExecutable));
}
