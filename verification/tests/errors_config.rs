//! The error taxonomy and configuration validation.

use valet::config::{default_base_path, Auth, Config, ConfigIssue, Exec, Limits, Root, Server};
use valet::errors::AppError;
use valet::server::{audit_end, audit_end_exec, Decision};

fn valid_config() -> Config {
    Config {
        root: Root { root_dir: "/tmp".to_string() },
        server: Server {
            bind_addr: "127.0.0.1".to_string(),
            port: 0,
            base_path: default_base_path(),
        },
        auth: Auth {
            bearer_token: "t".to_string(),
            allowed_origins: vec!["https://good".to_string()],
        },
        limits: Limits { exec_timeout_s: 2, max_stdout_kb: 8, max_request_kb: 64 },
        exec_policy: Exec { allowed_cmds: vec!["/bin/echo".to_string()], pass_env: vec![] },
    }
}

#[test]
fn error_taxonomy_codes_and_statuses() {
    let cases: Vec<(AppError, &str, u16)> = vec![
        (AppError::Unauthorized, "Unauthorized", 401),
        (AppError::Forbidden, "Forbidden", 403),
        (AppError::OriginDenied, "OriginDenied", 403),
        (AppError::RequestTooLarge, "RequestTooLarge", 413),
        (AppError::PathOutsideRoot, "PathOutsideRoot", 403),
        (AppError::NotFound, "NotFound", 404),
        (AppError::ExecDenied, "ExecDenied", 403),
        (AppError::ExecTimeout, "ExecTimeout", 408),
        (AppError::ToolError("x".to_string()), "ToolError", 400),
        (AppError::Internal("x".to_string()), "Internal", 500),
    ];
    for (err, code, status) in cases {
        assert_eq!(err.code(), code);
        assert_eq!(err.status(), status);
    }
}

#[test]
fn error_messages() {
    assert_eq!(AppError::Unauthorized.message(), "unauthorized");
    assert_eq!(AppError::ToolError("missing cmd".to_string()).message(), "tool error: missing cmd");
    assert_eq!(AppError::Internal("boom".to_string()).message(), "internal error: boom");
    let body = AppError::ExecDenied.body();
    assert_eq!(body.code, "ExecDenied");
    assert_eq!(body.message, "exec denied");
}

#[test]
fn config_validation_accepts_good() {
    assert!(valid_config().validate().is_ok());
}

#[test]
fn config_validation_finds_each_issue() {
    let mut c = valid_config();
    c.root.root_dir = "/no/such/dir/here".to_string();
    assert_eq!(c.validate(), Err(ConfigIssue::RootDirMissing));

    let mut c = valid_config();
    c.auth.bearer_token = "   ".to_string();
    assert_eq!(c.validate(), Err(ConfigIssue::EmptyBearerToken));

    let mut c = valid_config();
    c.auth.bearer_token = "\u{00A0}\u{2003}".to_string();
    assert_eq!(c.validate(), Err(ConfigIssue::EmptyBearerToken));

    let mut c = valid_config();
    c.auth.allowed_origins = vec![];
    assert_eq!(c.validate(), Err(ConfigIssue::NoAllowedOrigins));

    let mut c = valid_config();
    c.limits.exec_timeout_s = 0;
    assert_eq!(c.validate(), Err(ConfigIssue::ZeroExecTimeout));

    let mut c = valid_config();
    c.limits.max_request_kb = 0;
    assert_eq!(c.validate(), Err(ConfigIssue::ZeroMaxRequestKb));

    let mut c = valid_config();
    c.limits.max_stdout_kb = 0;
    assert_eq!(c.validate(), Err(ConfigIssue::ZeroMaxStdoutKb));
}

#[test]
fn config_issue_messages() {
    let c = valid_config();
    assert!(c.issue_message(&ConfigIssue::RootDirMissing).starts_with(
        "root_dir does not exist or is not a directory: "
    ));
    assert_eq!(c.issue_message(&ConfigIssue::EmptyBearerToken), "bearer_token must not be empty");
    assert_eq!(c.issue_message(&ConfigIssue::ZeroExecTimeout), "exec_timeout_s must be > 0");
}

#[test]
fn audit_records_carry_fields() {
    let rec = audit_end(
        "rid".to_string(),
        "https://ok".to_string(),
        true,
        "fs_read".to_string(),
        Decision::Allow,
        "OK".to_string(),
        12,
        345,
        Some(false),
    );
    assert_eq!(rec.request_id, "rid");
    assert_eq!(rec.tool, "fs_read");
    assert_eq!(rec.decision, Decision::Allow);
    assert_eq!(rec.decision.as_str(), "allow");
    assert_eq!(rec.code, "OK");
    assert_eq!(rec.duration_ms, 12);
    assert_eq!(rec.bytes_out, 345);
    assert_eq!(rec.streaming, Some(false));

    let exec_rec = audit_end_exec(
        "rid".to_string(),
        "".to_string(),
        false,
        Decision::Error,
        "ExecTimeout".to_string(),
        99,
        10,
        20,
        Some(1),
        Some(true),
        Some(true),
    );
    assert_eq!(exec_rec.tool, "exec");
    assert_eq!(exec_rec.decision.as_str(), "error");
    assert_eq!(exec_rec.stdout_len, 10);
    assert_eq!(exec_rec.stderr_len, 20);
    assert_eq!(exec_rec.exit_code, Some(1));
}
