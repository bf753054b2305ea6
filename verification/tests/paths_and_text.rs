use llm_daemon::paths::{file_name_is, join, parent, port_file, server_path_beside};
use llm_daemon::text::{decimal_string, starts_with};

#[test]
fn decimal_rendering() {
    assert_eq!(decimal_string(0), "0");
    assert_eq!(decimal_string(7), "7");
    assert_eq!(decimal_string(10), "10");
    assert_eq!(decimal_string(28282), "28282");
    assert_eq!(decimal_string(u64::MAX), u64::MAX.to_string());
}

#[test]
fn prefixes() {
    assert!(starts_with("unable to lock pid file", "unable"));
    assert!(starts_with("abc", ""));
    assert!(!starts_with("ab", "abc"));
    assert!(!starts_with("abd", "abc"));
}

#[test]
fn joining() {
    assert_eq!(join("/home/user", "proj/a.gguf"), "/home/user/proj/a.gguf");
    assert_eq!(join("/home/user/", "proj/a.gguf"), "/home/user/proj/a.gguf");
    assert_eq!(join("", "server"), "server");
    assert_eq!(join("/home/user", "/abs/x"), "/abs/x");
}

#[test]
fn parents() {
    assert_eq!(parent("/a/b/c"), "/a/b");
    assert_eq!(parent("/a"), "/");
    assert_eq!(parent("a"), "");
    assert_eq!(parent(""), "");
    assert_eq!(parent("/x/deps//t"), "/x/deps");
    assert_eq!(parent("//a"), "/");
    assert_eq!(parent("a//b"), "a");
    assert!(file_name_is("/x/deps", "deps"));
    assert!(!file_name_is("/x/mydeps", "deps"));
    assert!(file_name_is("deps", "deps"));
}

#[test]
fn server_beside_executable() {
    assert_eq!(server_path_beside("/p/target/release/app", false), "/p/target/release/server");
    assert_eq!(server_path_beside("/p/target/debug/deps/t-1", false), "/p/target/debug/server");
    assert_eq!(server_path_beside("/p/target/debug/examples/ex", false), "/p/target/debug/examples/server");
    assert_eq!(server_path_beside("/p/target/debug/examples/ex", true), "/p/target/debug/server");
    assert_eq!(server_path_beside("app", false), "server");
    assert_eq!(server_path_beside("/x/deps//t", false), "/x/server");
}

#[test]
fn port_files() {
    assert_eq!(port_file(9042, "pid"), "/tmp/llm-9042.pid");
    assert_eq!(port_file(0, "sock"), "/tmp/llm-0.sock");
    assert_ne!(port_file(901, "pid"), port_file(90, "1.pid"));
}
