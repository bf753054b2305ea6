use llm_daemon::endpoint::try_checked_url;
use llm_daemon::llama_daemon::llamafile::{Config, Llamafile};
use llm_daemon::mlc_daemon::bootstrap::{script, PYPROJECT};
use llm_daemon::{llama_config, llama_config_map, LlamaConfigs, MlcConfig, MlcDaemon};

#[test]
fn presets() {
    let map = llama_config_map("/home/me");
    assert_eq!(map.len(), 3);
    assert_eq!(map[0].0, LlamaConfigs::Llama3);
    assert_eq!(map[0].1.model_path, "/home/me/proj/Meta-Llama-3-8B-Instruct-Q5_K_M.gguf");
    assert_eq!(map[0].1.port, 28282);
    assert_eq!(map[1].1.stdout, "/tmp/phi3-llamacpp.stdout");
    assert_eq!(map[1].1.port, 28283);
    assert_eq!(map[2].1.stderr, "/tmp/gemma2b-llamacpp.stderr");
    let phi = llama_config(LlamaConfigs::Phi3, "/root/");
    assert_eq!(phi.model_path, "/root/proj/Phi-3-mini-4k-instruct-q4.gguf");
}

#[test]
fn endpoints() {
    let c = llama_config(LlamaConfigs::Llama3, "/h");
    assert_eq!(c.endpoint(), "http://127.0.0.1:28282/v1");
    assert_eq!(c.health_url(), "http://127.0.0.1:28282/health");
    assert_eq!(c.try_endpoint(), Some("http://127.0.0.1:28282/v1".to_string()));
}

#[test]
fn url_normalisation() {
    // The url crate lower-cases the host: the text is not handed back as it was.
    let mut conf = MlcConfig::default();
    conf.host = "LOCALHOST".to_string();
    assert_eq!(conf.endpoint(), "http://localhost:8000/v1/completions");
    assert_eq!(try_checked_url("HTTP://Example.COM"), Some("http://example.com/".to_string()));
    conf.host = "bad host".to_string();
    assert_eq!(conf.try_endpoint(), None);
}

#[test]
fn llamafile() {
    let d = Config::default();
    assert_eq!(d.llamafile_path, "");
    assert_eq!(d.port, 8123);
    assert_eq!(d.pid_file, "/tmp/llamafile-daemon.pid");
    let l = Llamafile::from_path("/m/llama.llamafile".to_string());
    assert_eq!(l.config().endpoint(), "http://127.0.0.1:8123/v1");
    let cmd = l.command();
    assert_eq!(cmd.program, "sh");
    assert_eq!(cmd.args, vec!["-c".to_string(), "/m/llama.llamafile --port 8123 -ngl 99 -c 4096 --nobrowser".to_string()]);
    assert_eq!(l.sock_file(), "/tmp/llamafile-daemon.sock");
}

#[test]
fn mlc() {
    let conf = MlcConfig::default();
    assert_eq!(conf.endpoint(), "http://127.0.0.1:8000/v1/completions");
    let d = MlcDaemon::new(conf);
    assert_eq!(
        d.server_args(),
        vec![
            "HF://mlc-ai/gemma-2b-it-q4f16_1-MLC".to_string(),
            "--host".to_string(),
            "127.0.0.1".to_string(),
            "--port".to_string(),
            "8000".to_string()
        ]
    );
    assert_eq!(d.config().sock_file, "/tmp/mlc-daemon2.sock");
}

#[test]
fn bootstrap_script() {
    let s = script("python3.11");
    assert!(s.starts_with("#!/bin/bash\n\nexport PYTHON=python3.11\nexport VERSION='python3.11-0.2.4'\n"));
    assert!(s.ends_with("exec $PYTHON -m mlc_llm serve $@\n"));
    assert_eq!(s.matches("python3.11").count(), 2);
    assert_ne!(script("a"), script("b"));
    assert_eq!(script("python3").len(), script("").len() + 2 * "python3".len());
    assert!(script("py").contains("export PYTHON=py\nexport VERSION='py-0.2.4'\n"));
    assert!(PYPROJECT.starts_with("[project]\nname = \"mlc-serv\""));
}
