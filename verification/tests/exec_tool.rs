//! The exec tool: allow-listing, timeout capping, environment
//! scrubbing, output accounting and result shaping.

use base64::Engine;
use valet::config::{Auth, Config, Exec, Limits, Root, Server};
use valet::errors::AppError;
use valet::tools::exec::{Drain, DrainAction, ExecTool, StreamEvent, StreamEmitter};

fn test_config(allowed: Vec<String>) -> Config {
    Config {
        root: Root { root_dir: "/tmp".to_string() },
        server: Server {
            bind_addr: "127.0.0.1".to_string(),
            port: 0,
            base_path: "/mcp".to_string(),
        },
        auth: Auth {
            bearer_token: "t".to_string(),
            allowed_origins: vec!["https://good".to_string()],
        },
        limits: Limits { exec_timeout_s: 2, max_stdout_kb: 8, max_request_kb: 64 },
        exec_policy: Exec { allowed_cmds: allowed, pass_env: vec!["HOME".to_string()] },
    }
}

#[test]
fn exec_denied_for_unlisted_command() {
    let tool = ExecTool::new(&test_config(vec!["/bin/echo".to_string()])).unwrap();
    let err = tool.resolve_and_check("/bin/sh").err().unwrap();
    assert!(matches!(err, AppError::ExecDenied));
    assert_eq!(err.status(), 403);
    assert_eq!(err.code(), "ExecDenied");
}

#[test]
fn exec_denied_for_missing_command() {
    let tool = ExecTool::new(&test_config(vec!["/bin/echo".to_string()])).unwrap();
    let err = tool.resolve_and_check("/no/such/binary").err().unwrap();
    assert!(matches!(err, AppError::ExecDenied));
}

#[test]
fn exec_allows_listed_command() {
    let tool = ExecTool::new(&test_config(vec!["/bin/echo".to_string()])).unwrap();
    let full = tool.resolve_and_check("/bin/echo").unwrap();
    assert!(full.ends_with("echo"));
    assert!(tool.is_allowed(&full));
}

#[test]
fn exec_allows_bare_name_through_path_lookup() {
    let tool = ExecTool::new(&test_config(vec!["/bin/echo".to_string()])).unwrap();
    let full = tool.resolve_and_check("echo").unwrap();
    assert!(tool.is_allowed(&full));
}

#[test]
fn exec_allows_echo() {
    let tool = ExecTool::new(&test_config(vec!["/bin/echo".to_string()])).unwrap();
    let full = tool.resolve_and_check("/bin/echo").unwrap();
    let rt = tokio::runtime::Runtime::new().unwrap();
    let output = rt
        .block_on(async { tokio::process::Command::new(&full).arg("hello").output().await })
        .unwrap();
    let mut drain = Drain::new(tool.max_bytes());
    if !output.stdout.is_empty() {
        assert_eq!(drain.on_stdout(&output.stdout), DrainAction::Continue);
    }
    let result = ExecTool::build_result(&drain, output.status.code(), 5, false);
    let bytes = base64::engine::general_purpose::STANDARD.decode(&result.stdout_b64).unwrap();
    assert!(String::from_utf8_lossy(&bytes).contains("hello"));
    assert_eq!(result.exit_code, 0);
    assert!(!result.truncated);
    assert!(!result.timed_out);
}

#[test]
fn exec_truncates_large_output() {
    let tool = ExecTool::new(&test_config(vec!["/usr/bin/yes".to_string()])).unwrap();
    let max_bytes = tool.max_bytes();
    assert_eq!(max_bytes, 8 * 1024);
    let mut drain = Drain::new(max_bytes);
    let chunk = [b'x'; 4096];
    let mut killed = false;
    for _ in 0..4 {
        match drain.on_stdout(&chunk) {
            DrainAction::Continue => {},
            DrainAction::KillAndStop => {
                killed = true;
                break;
            },
            DrainAction::Stop => panic!("no eof was handed in"),
        }
    }
    assert!(drain.truncated || drain.out.len() <= max_bytes);
    assert!(drain.truncated);
    assert!(killed);
    assert!(drain.kill_requested);
    let result = ExecTool::build_result(&drain, None, 7, false);
    assert!(result.truncated);
    assert_eq!(result.exit_code, 0);
}

#[test]
fn drain_keeps_streams_under_cap() {
    let mut drain = Drain::new(100);
    assert_eq!(drain.on_stdout(&[1u8; 60]), DrainAction::Continue);
    assert_eq!(drain.on_stderr(&[2u8; 100]), DrainAction::Continue);
    assert!(!drain.truncated);
    assert_eq!(drain.on_stdout(&[3u8; 41]), DrainAction::KillAndStop);
    assert!(drain.truncated);
    assert_eq!(drain.out.len(), 101);
    assert_eq!(drain.err.len(), 100);
}

#[test]
fn drain_stdout_eof_stops() {
    let mut drain = Drain::new(100);
    assert_eq!(drain.on_stdout_eof(), DrainAction::Stop);
    assert!(drain.stopped);
    assert!(!drain.truncated);
    assert_eq!(drain.on_stderr_eof(), DrainAction::Continue);
}

#[test]
fn effective_timeout_is_capped() {
    let tool = ExecTool::new(&test_config(vec!["/bin/echo".to_string()])).unwrap();
    assert_eq!(tool.effective_timeout(None), 2);
    assert_eq!(tool.effective_timeout(Some(1)), 1);
    assert_eq!(tool.effective_timeout(Some(10)), 2);
    assert_eq!(tool.effective_timeout(Some(2)), 2);
    assert_eq!(tool.effective_timeout(Some(0)), 2);
}

#[test]
fn environment_is_scrubbed() {
    let tool = ExecTool::new(&test_config(vec!["/bin/echo".to_string()])).unwrap();
    let env = vec![
        ("PATH".to_string(), "/usr/bin".to_string()),
        ("HOME".to_string(), "/root".to_string()),
        ("SECRET".to_string(), "SECRET-REDACTED".to_string()),
    ];
    let passed = tool.scrub_env(&env);
    assert_eq!(passed, vec![("HOME".to_string(), "/root".to_string())]);
}

#[test]
fn stream_protocol_orders_records() {
    let mut emitter = StreamEmitter::new();
    assert!(matches!(emitter.start(), StreamEvent::Start));
    let chunk = emitter.stdout_chunk(b"hi");
    match chunk {
        StreamEvent::StdoutChunk(c) => {
            let bytes = base64::engine::general_purpose::STANDARD.decode(&c).unwrap();
            assert_eq!(bytes, b"hi");
        },
        _ => panic!("expected a stdout chunk"),
    }
    let end = emitter.finish(42);
    assert!(matches!(end, StreamEvent::End(42)));
    assert!(emitter.terminated);
}

#[test]
fn stream_failure_carries_taxonomy_code() {
    let mut emitter = StreamEmitter::new();
    let _ = emitter.start();
    let event = emitter.fail(&AppError::ExecTimeout);
    match event {
        StreamEvent::Failed(code, message) => {
            assert_eq!(code, "ExecTimeout");
            assert_eq!(message, "exec timeout");
        },
        _ => panic!("expected the terminal error record"),
    }
}

#[test]
fn allow_set_covers_every_configured_command() {
    let tool = ExecTool::new(&test_config(vec![
        "/bin/echo".to_string(),
        "/usr/bin/yes".to_string(),
    ]))
    .unwrap();
    assert_eq!(tool.allowed.len(), 2);
    let empty = ExecTool::new(&test_config(vec![])).unwrap();
    assert_eq!(empty.allowed.len(), 0);
    assert!(matches!(
        empty.resolve_and_check("/bin/echo"),
        Err(AppError::ExecDenied)
    ));
}
