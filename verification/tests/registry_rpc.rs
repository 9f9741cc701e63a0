//! The tool catalog and the RPC routing decisions.

use valet::config::{Auth, Config, Exec, Limits, Root, Server};
use valet::errors::AppError;
use valet::mcp::registry::{ToolEntry, ToolRegistry};
use valet::security::RateLimiters;
use valet::server::{
    admit_tools_call, authorize_path, new_request_id, route, route_get, rpc_error_code,
    tool_description, Decision, GetResponse, RpcFailure, RpcRoute,
};

fn test_config() -> Config {
    Config {
        root: Root { root_dir: "/tmp".to_string() },
        server: Server {
            bind_addr: "127.0.0.1".to_string(),
            port: 0,
            base_path: "/mcp".to_string(),
        },
        auth: Auth {
            bearer_token: "secret".to_string(),
            allowed_origins: vec!["https://ok".to_string()],
        },
        limits: Limits { exec_timeout_s: 2, max_stdout_kb: 8, max_request_kb: 64 },
        exec_policy: Exec { allowed_cmds: vec!["/bin/echo".to_string()], pass_env: vec![] },
    }
}

#[test]
fn tools_listed_sorted() {
    let registry = ToolRegistry::new(&test_config()).unwrap();
    let names = registry.list_names();
    assert_eq!(names, vec!["exec", "fs_read", "fs_write"]);
}

#[test]
fn registry_lookup_exact() {
    let registry = ToolRegistry::new(&test_config()).unwrap();
    assert!(matches!(registry.get("exec"), Some(ToolEntry::Exec(_))));
    assert!(matches!(registry.get("fs_read"), Some(ToolEntry::FsRead(_))));
    assert!(matches!(registry.get("fs_write"), Some(ToolEntry::FsWrite(_))));
    assert!(registry.get("Exec").is_none());
    assert!(registry.get("nope").is_none());
}

#[test]
fn routing_by_method() {
    assert_eq!(route("2.0", "initialize"), RpcRoute::Initialize);
    assert_eq!(route("2.0", "initialized"), RpcRoute::Initialized);
    assert_eq!(route("2.0", "tools/list"), RpcRoute::ToolsList);
    assert_eq!(route("2.0", "tools/call"), RpcRoute::ToolsCall);
    assert_eq!(route("2.0", "nonsense"), RpcRoute::MethodNotFound);
    assert_eq!(route("1.0", "tools/list"), RpcRoute::BadVersion);
}

#[test]
fn rpc_error_codes() {
    assert_eq!(rpc_error_code(&RpcFailure::Admission), -32600);
    assert_eq!(rpc_error_code(&RpcFailure::BadVersion), -32600);
    assert_eq!(rpc_error_code(&RpcFailure::MethodNotFound), -32601);
    assert_eq!(rpc_error_code(&RpcFailure::ToolNotFound), -32601);
    assert_eq!(rpc_error_code(&RpcFailure::ToolFailed), -32603);
}

#[test]
fn wrong_url_token_unauthorized() {
    let allowed = vec!["https://ok".to_string()];
    let err = authorize_path("wrong", "secret", Some("https://ok"), &allowed).err().unwrap();
    assert!(matches!(err, AppError::Unauthorized));
    assert_eq!(err.status(), 401);
    assert!(err.message().contains("unauthorized"));
    assert_eq!(rpc_error_code(&RpcFailure::Admission), -32600);
}

#[test]
fn right_token_and_origin_admitted() {
    let allowed = vec!["https://ok".to_string()];
    assert!(authorize_path("secret", "secret", Some("https://ok"), &allowed).is_ok());
    let err = authorize_path("secret", "secret", None, &allowed).err().unwrap();
    assert!(matches!(err, AppError::OriginDenied));
}

#[test]
fn get_endpoint_decisions() {
    let allowed = vec!["https://ok".to_string()];
    assert!(matches!(
        route_get("wrong", "secret", None, &allowed, None),
        Err(AppError::Unauthorized)
    ));
    assert!(matches!(
        route_get("secret", "secret", Some("https://evil"), &allowed, None),
        Err(AppError::OriginDenied)
    ));
    assert_eq!(
        route_get("secret", "secret", None, &allowed, Some("text/event-stream")).unwrap(),
        GetResponse::Sse
    );
    assert_eq!(
        route_get("secret", "secret", Some("https://ok"), &allowed,
            Some("application/json, text/event-stream;q=0.9")).unwrap(),
        GetResponse::Sse
    );
    assert_eq!(
        route_get("secret", "secret", None, &allowed, Some("text/html")).unwrap(),
        GetResponse::Info
    );
    assert_eq!(route_get("secret", "secret", None, &allowed, None).unwrap(), GetResponse::Info);
}

#[test]
fn tools_call_admission() {
    let registry = ToolRegistry::new(&test_config()).unwrap();
    let rls = RateLimiters::new(100, 100, 100, 100);
    let too_big = admit_tools_call(&registry, &rls, Some(64 * 1024 + 1), 64, None, "fs_read");
    assert!(matches!(too_big, Err(AppError::RequestTooLarge)));
    let unknown = admit_tools_call(&registry, &rls, None, 64, Some("t"), "no_such_tool");
    assert!(matches!(unknown, Err(AppError::NotFound)));
    let found = admit_tools_call(&registry, &rls, Some(10), 64, Some("t"), "exec");
    assert!(matches!(found, Ok(ToolEntry::Exec(_))));
}

#[test]
fn tool_descriptions() {
    assert_eq!(tool_description("exec"), "Tool: exec");
}

#[test]
fn request_ids_are_uuid_shaped() {
    let a = new_request_id();
    let b = new_request_id();
    assert_eq!(a.len(), 36);
    assert_ne!(a, b);
}

#[test]
fn decision_for_each_outcome() {
    assert_eq!(Decision::for_outcome(false, false), Decision::Deny);
    assert_eq!(Decision::for_outcome(false, true), Decision::Deny);
    assert_eq!(Decision::for_outcome(true, true), Decision::Allow);
    assert_eq!(Decision::for_outcome(true, false), Decision::Error);
}
