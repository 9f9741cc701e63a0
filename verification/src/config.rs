//! The validated configuration every request handler shares: the jail
//! root, the transport binding, the authentication material, the caps
//! and the exec policy.

use vstd::prelude::*;
use crate::tools::canonical_of;

verus! {

/// The filesystem jail.
#[derive(Debug)]
pub struct Root {
    pub root_dir: String,
}

/// The transport binding.
#[derive(Debug)]
pub struct Server {
    pub bind_addr: String,
    pub port: u16,
    pub base_path: String,
}

/// The authentication material.
#[derive(Debug)]
pub struct Auth {
    pub bearer_token: String,
    pub allowed_origins: Vec<String>,
}

/// The size and time caps.
#[derive(Debug)]
pub struct Limits {
    pub exec_timeout_s: u64,
    pub max_stdout_kb: usize,
    pub max_request_kb: usize,
}

/// The exec policy: which commands may run and which environment
/// variables may pass to them.
#[derive(Debug)]
pub struct Exec {
    pub allowed_cmds: Vec<String>,
    pub pass_env: Vec<String>,
}

/// The whole configuration, immutable after validation.
#[derive(Debug)]
pub struct Config {
    pub root: Root,
    pub server: Server,
    pub auth: Auth,
    pub limits: Limits,
    pub exec_policy: Exec,
}

/// The path requests are served under when the configuration names none.
pub fn default_base_path() -> (r: String)
    ensures
        r@ == "/mcp"@,
{
    String::from_str("/mcp")
}

/// What validation can object to, in the order the checks run.
#[derive(Debug, PartialEq, Eq, Structural)]
pub enum ConfigIssue {
    RootDirMissing,
    EmptyBearerToken,
    NoAllowedOrigins,
    ZeroExecTimeout,
    ZeroMaxRequestKb,
    ZeroMaxStdoutKb,
}

/// A whitespace character, as trimming sees it: the Unicode
/// White_Space set.
pub open spec fn is_blank_char(c: char) -> bool {
    (9 <= c as u32 && c as u32 <= 13) || c as u32 == 32 || c as u32 == 0x85 || c as u32 == 0xA0
        || c as u32 == 0x1680 || (0x2000 <= c as u32 && c as u32 <= 0x200A) || c as u32 == 0x2028
        || c as u32 == 0x2029 || c as u32 == 0x202F || c as u32 == 0x205F || c as u32 == 0x3000
}

/// Nothing but whitespace: what is left after trimming is empty.
pub open spec fn blank(s: Seq<char>) -> bool {
    forall|i: int| 0 <= i < s.len() ==> is_blank_char(s[i])
}

/// Is the string nothing but whitespace?
pub fn is_blank(s: &str) -> (r: bool)
    ensures
        r == blank(s@),
{
    let len = s.unicode_len();
    let mut i: usize = 0;
    while i < len
        invariant
            i <= len,
            len == s@.len(),
            forall|j: int| 0 <= j < i ==> is_blank_char(s@[j]),
        decreases len - i,
    {
        let c = s.get_char(i);
        let cu = c as u32;
        let blank_c = (9 <= cu && cu <= 13) || cu == 32 || cu == 0x85 || cu == 0xA0 || cu
            == 0x1680 || (0x2000 <= cu && cu <= 0x200A) || cu == 0x2028 || cu == 0x2029 || cu
            == 0x202F || cu == 0x205F || cu == 0x3000;
        if !blank_c {
            return false;
        }
        i = i + 1;
    }
    true
}

/// The canonical form of the configured root, resolved once at
/// startup; what it is depends on the filesystem.
pub fn canonical_root(root: &str) -> (r: Result<String, String>) {
    canonical_of(root)
}

/// Relies on std::path::Path::is_dir: whether the path names an
/// existing directory on this machine.
#[verifier::external_body]
fn path_is_dir(p: &str) -> (r: bool) {
    std::path::Path::new(p).is_dir()
}

impl Config {
    /// The outcome validation owes, given whether `root_dir` names an
    /// existing directory.
    pub open spec fn validate_decision(self, root_ok: bool) -> Result<(), ConfigIssue> {
        if !root_ok {
            Err(ConfigIssue::RootDirMissing)
        } else if blank(self.auth.bearer_token@) {
            Err(ConfigIssue::EmptyBearerToken)
        } else if self.auth.allowed_origins@.len() == 0 {
            Err(ConfigIssue::NoAllowedOrigins)
        } else if self.limits.exec_timeout_s == 0 {
            Err(ConfigIssue::ZeroExecTimeout)
        } else if self.limits.max_request_kb == 0 {
            Err(ConfigIssue::ZeroMaxRequestKb)
        } else if self.limits.max_stdout_kb == 0 {
            Err(ConfigIssue::ZeroMaxStdoutKb)
        } else {
            Ok(())
        }
    }

    /// Validate everything but the root directory's existence, which
    /// is handed in as a fact about the filesystem.
    pub fn validate_with(&self, root_ok: bool) -> (r: Result<(), ConfigIssue>)
        ensures
            r == self.validate_decision(root_ok),
    {
        if !root_ok {
            Err(ConfigIssue::RootDirMissing)
        } else if is_blank(self.auth.bearer_token.as_str()) {
            Err(ConfigIssue::EmptyBearerToken)
        } else if self.auth.allowed_origins.len() == 0 {
            Err(ConfigIssue::NoAllowedOrigins)
        } else if self.limits.exec_timeout_s == 0 {
            Err(ConfigIssue::ZeroExecTimeout)
        } else if self.limits.max_request_kb == 0 {
            Err(ConfigIssue::ZeroMaxRequestKb)
        } else if self.limits.max_stdout_kb == 0 {
            Err(ConfigIssue::ZeroMaxStdoutKb)
        } else {
            Ok(())
        }
    }

    /// Validate the configuration. The filesystem decides only whether
    /// `root_dir` is a directory; every other check is exact.
    pub fn validate(&self) -> (r: Result<(), ConfigIssue>)
        ensures
            r == self.validate_decision(true) || r == self.validate_decision(false),
    {
        let root_ok = path_is_dir(self.root.root_dir.as_str());
        self.validate_with(root_ok)
    }

    /// The message reported for a validation refusal.
    pub fn issue_message(&self, issue: &ConfigIssue) -> (r: String)
        ensures
            r@ == match issue {
                ConfigIssue::RootDirMissing => "root_dir does not exist or is not a directory: "@
                    + self.root.root_dir@,
                ConfigIssue::EmptyBearerToken => "bearer_token must not be empty"@,
                ConfigIssue::NoAllowedOrigins => "allowed_origins must not be empty"@,
                ConfigIssue::ZeroExecTimeout => "exec_timeout_s must be > 0"@,
                ConfigIssue::ZeroMaxRequestKb => "max_request_kb must be > 0"@,
                ConfigIssue::ZeroMaxStdoutKb => "max_stdout_kb must be > 0"@,
            },
    {
        match issue {
            ConfigIssue::RootDirMissing => String::from_str(
                "root_dir does not exist or is not a directory: ",
            ).concat(self.root.root_dir.as_str()),
            ConfigIssue::EmptyBearerToken => String::from_str("bearer_token must not be empty"),
            ConfigIssue::NoAllowedOrigins => String::from_str("allowed_origins must not be empty"),
            ConfigIssue::ZeroExecTimeout => String::from_str("exec_timeout_s must be > 0"),
            ConfigIssue::ZeroMaxRequestKb => String::from_str("max_request_kb must be > 0"),
            ConfigIssue::ZeroMaxStdoutKb => String::from_str("max_stdout_kb must be > 0"),
        }
    }
}

} // verus!
