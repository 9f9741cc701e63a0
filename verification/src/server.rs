//! The request-level decisions of the RPC surface: authorizing the
//! URL token and origin, routing a JSON-RPC envelope, admitting a
//! tool call, and shaping the audit record every admitted request
//! emits exactly once.

use vstd::prelude::*;
use crate::errors::AppError;
use crate::mcp::registry::{ToolEntry, ToolRegistry};
use crate::security::{
    check_origin, content_length_ok, opt_view, origin_allowed, RateLimiters,
};
use crate::text::{has_substring, str_eq, contains_str};

verus! {

/// Where a request envelope routes.
#[derive(Debug, PartialEq, Eq, Structural)]
pub enum RpcRoute {
    BadVersion,
    Initialize,
    Initialized,
    ToolsList,
    ToolsCall,
    MethodNotFound,
}

/// The route a request envelope takes: the version gate first, then
/// the method name, case-sensitively.
pub open spec fn route_of(jsonrpc: Seq<char>, method: Seq<char>) -> RpcRoute {
    if jsonrpc != "2.0"@ {
        RpcRoute::BadVersion
    } else if method == "initialize"@ {
        RpcRoute::Initialize
    } else if method == "initialized"@ {
        RpcRoute::Initialized
    } else if method == "tools/list"@ {
        RpcRoute::ToolsList
    } else if method == "tools/call"@ {
        RpcRoute::ToolsCall
    } else {
        RpcRoute::MethodNotFound
    }
}

/// Route a request envelope.
pub fn route(jsonrpc: &str, method: &str) -> (r: RpcRoute)
    ensures
        r == route_of(jsonrpc@, method@),
{
    if !str_eq(jsonrpc, "2.0") {
        RpcRoute::BadVersion
    } else if str_eq(method, "initialize") {
        RpcRoute::Initialize
    } else if str_eq(method, "initialized") {
        RpcRoute::Initialized
    } else if str_eq(method, "tools/list") {
        RpcRoute::ToolsList
    } else if str_eq(method, "tools/call") {
        RpcRoute::ToolsCall
    } else {
        RpcRoute::MethodNotFound
    }
}

/// The JSON-RPC error code of each failure surface.
#[derive(Debug, PartialEq, Eq, Structural)]
pub enum RpcFailure {
    Admission,
    BadVersion,
    MethodNotFound,
    ToolNotFound,
    ToolFailed,
}

/// The JSON-RPC error code a failure class is reported under.
pub fn rpc_error_code(f: &RpcFailure) -> (r: i32)
    ensures
        r == match f {
            RpcFailure::Admission => -32600i32,
            RpcFailure::BadVersion => -32600i32,
            RpcFailure::MethodNotFound => -32601i32,
            RpcFailure::ToolNotFound => -32601i32,
            RpcFailure::ToolFailed => -32603i32,
        },
{
    match f {
        RpcFailure::Admission | RpcFailure::BadVersion => -32600,
        RpcFailure::MethodNotFound | RpcFailure::ToolNotFound => -32601,
        RpcFailure::ToolFailed => -32603,
    }
}

/// Authorize a POST: the URL token must equal the bearer token, then
/// the origin must be allowed; a missing origin is a denial.
pub fn authorize_path(path_token: &str, bearer_token: &str, origin: Option<&str>, allowed:
    &Vec<String>) -> (r: Result<(), AppError>)
    ensures
        r is Ok <==> (path_token@ == bearer_token@ && origin_allowed(
            opt_view(origin),
            allowed@,
        )),
        path_token@ != bearer_token@ ==> r == Err::<(), AppError>(AppError::Unauthorized),
        (path_token@ == bearer_token@ && r is Err) ==> r == Err::<(), AppError>(
            AppError::OriginDenied,
        ),
        r is Err ==> (r->Err_0 is Unauthorized || r->Err_0 is OriginDenied),
{
    if !str_eq(path_token, bearer_token) {
        return Err(AppError::Unauthorized);
    }
    check_origin(origin, allowed)?;
    Ok(())
}

/// How a GET on the token endpoint is answered.
#[derive(Debug, PartialEq, Eq, Structural)]
pub enum GetResponse {
    Sse,
    Info,
}

/// The decision a GET on the token endpoint owes: the token first;
/// the origin only when one is present, since browsers navigate
/// without one; then the Accept header picks the event stream or the
/// informational document.
pub open spec fn get_decision(
    path_token: Seq<char>,
    bearer: Seq<char>,
    origin: Option<Seq<char>>,
    allowed: Seq<String>,
    accept: Option<Seq<char>>,
) -> Result<GetResponse, AppError> {
    if path_token != bearer {
        Err(AppError::Unauthorized)
    } else if origin is Some && !origin_allowed(origin, allowed) {
        Err(AppError::OriginDenied)
    } else if accept matches Some(a) && has_substring(a, "text/event-stream"@) {
        Ok(GetResponse::Sse)
    } else {
        Ok(GetResponse::Info)
    }
}

/// Decide a GET on the token endpoint.
pub fn route_get(path_token: &str, bearer_token: &str, origin: Option<&str>, allowed: &Vec<
    String>, accept: Option<&str>) -> (r: Result<GetResponse, AppError>)
    ensures
        r == get_decision(path_token@, bearer_token@, opt_view(origin), allowed@, opt_view(
            accept,
        )),
{
    if !str_eq(path_token, bearer_token) {
        return Err(AppError::Unauthorized);
    }
    if origin.is_some() {
        check_origin(origin, allowed)?;
    }
    match accept {
        Some(a) => {
            if contains_str(a, "text/event-stream") {
                Ok(GetResponse::Sse)
            } else {
                Ok(GetResponse::Info)
            }
        },
        None => Ok(GetResponse::Info),
    }
}

/// Admit a tool call: the declared size first, then the rate limit,
/// then the name lookup. A size past the cap is always a refusal; the
/// rate outcome depends on the clock; the lookup is exact.
pub fn admit_tools_call<'a>(
    registry: &'a ToolRegistry,
    rls: &RateLimiters,
    content_length: Option<usize>,
    max_request_kb: usize,
    token: Option<&str>,
    tool_name: &str,
) -> (r: Result<&'a ToolEntry, AppError>)
    requires
        registry.wf(),
        max_request_kb <= usize::MAX / 1024,
    ensures
        (match content_length {
            Some(n) => n > max_request_kb * 1024,
            None => false,
        }) ==> r == Err::<&'a ToolEntry, AppError>(AppError::RequestTooLarge),
        r is Ok ==> r->Ok_0.name_view() == tool_name@,
        r is Ok ==> match content_length {
            Some(n) => n <= max_request_kb * 1024,
            None => true,
        },
        r matches Err(e) ==> (e is RequestTooLarge || e is NotFound),
        r matches Err(e) && e is NotFound ==> (tool_name@ != "exec"@ && tool_name@ != "fs_read"@
            && tool_name@ != "fs_write"@),
{
    if let Err(e) = content_length_ok(content_length, max_request_kb) {
        return Err(e);
    }
    if let Err(e) = rls.check(token) {
        return Err(e);
    }
    match registry.get(tool_name) {
        Some(t) => Ok(t),
        None => Err(AppError::NotFound),
    }
}

/// The description a tool is listed with.
pub fn tool_description(name: &str) -> (r: String)
    ensures
        r@ == "Tool: "@ + name@,
{
    String::from_str("Tool: ").concat(name)
}

/// The decision an audit record carries.
#[derive(Debug, PartialEq, Eq, Structural)]
pub enum Decision {
    Allow,
    Deny,
    Error,
}

impl Decision {
    /// The word the record carries for the decision.
    pub fn as_str(&self) -> (r: &'static str)
        ensures
            r@ == match self {
                Decision::Allow => "allow"@,
                Decision::Deny => "deny"@,
                Decision::Error => "error"@,
            },
    {
        match self {
            Decision::Allow => "allow",
            Decision::Deny => "deny",
            Decision::Error => "error",
        }
    }
}

impl Decision {
    /// The decision recorded for each outcome of a dispatched call: a
    /// refusal before the tool ran is a denial, a tool that ran and
    /// answered is an allowance, a tool that ran and failed an error.
    pub fn for_outcome(admitted: bool, succeeded: bool) -> (r: Decision)
        ensures
            r == (if !admitted {
                Decision::Deny
            } else if succeeded {
                Decision::Allow
            } else {
                Decision::Error
            }),
    {
        if !admitted {
            Decision::Deny
        } else if succeeded {
            Decision::Allow
        } else {
            Decision::Error
        }
    }
}

/// The audit record of one request: emitted exactly once per request
/// that reaches the dispatcher, whatever the outcome.
#[derive(Debug)]
pub struct AuditRecord {
    pub request_id: String,
    pub origin: String,
    pub token_present: bool,
    pub tool: String,
    pub decision: Decision,
    pub code: String,
    pub duration_ms: u64,
    pub bytes_out: u64,
    pub streaming: Option<bool>,
}

/// The audit record of one exec invocation, with the supervisor's
/// outcome fields.
#[derive(Debug)]
pub struct AuditExecRecord {
    pub request_id: String,
    pub origin: String,
    pub token_present: bool,
    pub tool: String,
    pub decision: Decision,
    pub code: String,
    pub duration_ms: u64,
    pub stdout_len: usize,
    pub stderr_len: usize,
    pub exit_code: Option<i64>,
    pub truncated: Option<bool>,
    pub timed_out: Option<bool>,
}

/// Relies on uuid::Uuid::new_v4 and its hyphenated form: a fresh
/// random request identifier, 36 characters long.
#[verifier::external_body]
pub fn new_request_id() -> (r: String)
    ensures
        r@.len() == 36,
{
    uuid::Uuid::new_v4().to_string()
}

/// Shape the one audit record of a finished request. Every handler
/// path builds exactly one record, and the transport emits each
/// record once.
pub fn audit_end(
    request_id: String,
    origin: String,
    token_present: bool,
    tool: String,
    decision: Decision,
    code: String,
    duration_ms: u64,
    bytes_out: u64,
    streaming: Option<bool>,
) -> (r: AuditRecord)
    ensures
        r.request_id@ == request_id@,
        r.origin@ == origin@,
        r.token_present == token_present,
        r.tool@ == tool@,
        r.decision == decision,
        r.code@ == code@,
        r.duration_ms == duration_ms,
        r.bytes_out == bytes_out,
        r.streaming == streaming,
{
    AuditRecord {
        request_id,
        origin,
        token_present,
        tool,
        decision,
        code,
        duration_ms,
        bytes_out,
        streaming,
    }
}

/// Shape the one audit record of a finished exec invocation.
pub fn audit_end_exec(
    request_id: String,
    origin: String,
    token_present: bool,
    decision: Decision,
    code: String,
    duration_ms: u64,
    stdout_len: usize,
    stderr_len: usize,
    exit_code: Option<i64>,
    truncated: Option<bool>,
    timed_out: Option<bool>,
) -> (r: AuditExecRecord)
    ensures
        r.request_id@ == request_id@,
        r.origin@ == origin@,
        r.token_present == token_present,
        r.tool@ == "exec"@,
        r.decision == decision,
        r.code@ == code@,
        r.duration_ms == duration_ms,
        r.stdout_len == stdout_len,
        r.stderr_len == stderr_len,
        r.exit_code == exit_code,
        r.truncated == truncated,
        r.timed_out == timed_out,
{
    AuditExecRecord {
        request_id,
        origin,
        token_present,
        tool: String::from_str("exec"),
        decision,
        code,
        duration_ms,
        stdout_len,
        stderr_len,
        exit_code,
        truncated,
        timed_out,
    }
}

} // verus!
