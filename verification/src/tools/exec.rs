//! The subprocess supervisor's decision logic: resolving a requested
//! command against the canonicalized allow-list, capping the timeout,
//! scrubbing the environment, accounting the drained output with
//! truncation, and shaping the result.

use vstd::prelude::*;
use crate::b64::{b64_of, b64_decode_of, b64_encode};
use crate::config::Config;
use crate::errors::AppError;
use crate::text::{contains_char, str_eq};
use crate::tools::canonical_of;

verus! {

/// The largest chunk the drain loop hands in from one pipe read.
pub const CHUNK_CAP: usize = 8192;

/// The exec policy a running server enforces: canonical allowed
/// executable paths, the environment names allowed through, and the
/// caps on runtime and captured output.
pub struct ExecTool {
    pub allowed: Vec<String>,
    pub pass_env: Vec<String>,
    pub timeout_s: u64,
    pub max_stdout_kb: usize,
}

/// Relies on which::which: searches the PATH directories for an
/// executable of that name; what it finds depends on the machine.
#[verifier::external_body]
fn which_lookup(name: &str) -> (r: Option<String>) {
    match which::which(name) {
        Ok(p) => match p.to_str() {
            Some(s) => Some(s.to_string()),
            None => None,
        },
        Err(_) => None,
    }
}

/// Clone a list of strings, value for value.
fn clone_strings(v: &Vec<String>) -> (r: Vec<String>)
    ensures
        r@ == v@,
{
    let mut r: Vec<String> = Vec::new();
    let mut i: usize = 0;
    while i < v.len()
        invariant
            i <= v@.len(),
            r@ =~= v@.subrange(0, i as int),
        decreases v@.len() - i,
    {
        r.push(v[i].clone());
        i = i + 1;
    }
    proof {
        assert(r@ =~= v@);
    }
    r
}

impl ExecTool {
    /// The canonical path is exactly one of the allowed ones.
    pub open spec fn allows(self, c: Seq<char>) -> bool {
        exists|i: int| 0 <= i < self.allowed@.len() && self.allowed@[i]@ == c
    }

    /// Resolve and canonicalize every configured command reference: a
    /// reference with a separator directly, a bare name through a PATH
    /// lookup first. A command that cannot be resolved refuses the
    /// whole configuration.
    pub fn new(cfg: &Config) -> (r: Result<Self, AppError>)
        ensures
            r is Ok ==> r->Ok_0.allowed@.len() == cfg.exec_policy.allowed_cmds@.len(),
            r is Ok ==> r->Ok_0.pass_env@ == cfg.exec_policy.pass_env@,
            r is Ok ==> r->Ok_0.timeout_s == cfg.limits.exec_timeout_s,
            r is Ok ==> r->Ok_0.max_stdout_kb == cfg.limits.max_stdout_kb,
            cfg.exec_policy.allowed_cmds@.len() == 0 ==> r is Ok,
            r is Err ==> r->Err_0 is Internal,
    {
        let mut allowed: Vec<String> = Vec::new();
        let mut i: usize = 0;
        while i < cfg.exec_policy.allowed_cmds.len()
            invariant
                i <= cfg.exec_policy.allowed_cmds@.len(),
                allowed@.len() == i,
            decreases cfg.exec_policy.allowed_cmds@.len() - i,
        {
            let c = &cfg.exec_policy.allowed_cmds[i];
            let path = if contains_char(c.as_str(), '/') {
                c.clone()
            } else {
                match which_lookup(c.as_str()) {
                    Some(p) => p,
                    None => {
                        return Err(AppError::Internal(String::from_str("command not found")));
                    },
                }
            };
            match canonical_of(path.as_str()) {
                Ok(can) => allowed.push(can),
                Err(m) => {
                    return Err(AppError::Internal(m));
                },
            }
            i = i + 1;
        }
        Ok(
            ExecTool {
                allowed,
                pass_env: clone_strings(&cfg.exec_policy.pass_env),
                timeout_s: cfg.limits.exec_timeout_s,
                max_stdout_kb: cfg.limits.max_stdout_kb,
            },
        )
    }

    /// Exact membership of a canonical path in the allow-list.
    pub fn is_allowed(&self, path: &str) -> (r: bool)
        ensures
            r == self.allows(path@),
    {
        let mut i: usize = 0;
        while i < self.allowed.len()
            invariant
                i <= self.allowed@.len(),
                forall|j: int| 0 <= j < i ==> self.allowed@[j]@ != path@,
        decreases self.allowed@.len() - i,
        {
            if str_eq(self.allowed[i].as_str(), path) {
                proof {
                    assert(0 <= (i as int) && (i as int) < self.allowed@.len()
                        && self.allowed@[i as int]@ == path@);
                }
                return true;
            }
            i = i + 1;
        }
        false
    }

    /// Resolve a requested command and admit it only when its
    /// canonical path is exactly one of the allowed ones; every
    /// refusal is the same `ExecDenied`, so the caller cannot tell
    /// "not found" from "denied".
    pub fn resolve_and_check(&self, cmd: &str) -> (r: Result<String, AppError>)
        ensures
            r is Ok ==> self.allows(r->Ok_0@),
            r is Err ==> r->Err_0 is ExecDenied,
    {
        let path = if contains_char(cmd, '/') {
            match canonical_of(cmd) {
                Ok(p) => p,
                Err(_) => {
                    return Err(AppError::ExecDenied);
                },
            }
        } else {
            match which_lookup(cmd) {
                Some(p) => p,
                None => {
                    return Err(AppError::ExecDenied);
                },
            }
        };
        let full = match canonical_of(path.as_str()) {
            Ok(p) => p,
            Err(_) => {
                return Err(AppError::ExecDenied);
            },
        };
        if self.is_allowed(full.as_str()) {
            Ok(full)
        } else {
            Err(AppError::ExecDenied)
        }
    }

    /// The effective timeout: the request's, capped by the configured
    /// one; the configured one alone when the request named none or
    /// asked for zero, since the deadline must stay positive.
    pub fn effective_timeout(&self, requested: Option<u64>) -> (r: u64)
        ensures
            r == match requested {
                Some(t) => if t == 0 {
                    self.timeout_s
                } else if t <= self.timeout_s {
                    t
                } else {
                    self.timeout_s
                },
                None => self.timeout_s,
            },
            self.timeout_s > 0 ==> r > 0,
    {
        match requested {
            Some(t) => if t == 0 {
                self.timeout_s
            } else if t <= self.timeout_s {
                t
            } else {
                self.timeout_s
            },
            None => self.timeout_s,
        }
    }

    /// The cap on each captured stream, in bytes.
    pub fn max_bytes(&self) -> (r: usize)
        requires
            self.max_stdout_kb <= (usize::MAX / 2 - CHUNK_CAP) / 1024,
        ensures
            r == self.max_stdout_kb * 1024,
    {
        self.max_stdout_kb * 1024
    }
}

/// The first value `env` defines for `name`.
pub open spec fn lookup_env(env: Seq<(String, String)>, name: Seq<char>) -> Option<String>
    decreases env.len(),
{
    if env.len() == 0 {
        None
    } else if env[0].0@ == name {
        Some(env[0].1)
    } else {
        lookup_env(env.drop_first(), name)
    }
}

/// The environment a child sees: for each name in `pass_env`, in
/// order, the first value the server's environment defines for it,
/// and nothing else.
pub open spec fn scrubbed(pass_env: Seq<String>, env: Seq<(String, String)>) -> Seq<
    (String, String),
>
    decreases pass_env.len(),
{
    if pass_env.len() == 0 {
        Seq::empty()
    } else {
        scrubbed(pass_env.drop_last(), env) + match lookup_env(env, pass_env.last()@) {
            Some(v) => seq![(pass_env.last(), v)],
            None => Seq::empty(),
        }
    }
}

/// Find the first value `env` defines for `name`.
fn env_lookup(env: &Vec<(String, String)>, name: &str) -> (r: Option<String>)
    ensures
        r == lookup_env(env@, name@),
{
    let mut i: usize = 0;
    proof {
        assert(env@.subrange(0, env@.len() as int) =~= env@);
    }
    while i < env.len()
        invariant
            i <= env@.len(),
            lookup_env(env@, name@) == lookup_env(env@.subrange(i as int, env@.len() as int),
                name@),
        decreases env@.len() - i,
    {
        let ghost rest = env@.subrange(i as int, env@.len() as int);
        proof {
            assert(rest[0] == env@[i as int]);
            assert(rest.drop_first() =~= env@.subrange(i as int + 1, env@.len() as int));
        }
        if str_eq(env[i].0.as_str(), name) {
            return Some(env[i].1.clone());
        }
        i = i + 1;
    }
    proof {
        assert(env@.subrange(i as int, env@.len() as int).len() == 0);
    }
    None
}

/// What the drain loop must do after handing in an event.
#[derive(Debug, PartialEq, Eq, Structural)]
pub enum DrainAction {
    Continue,
    Stop,
    KillAndStop,
}

/// The accounting of a child's two output streams while they drain:
/// captured bytes, the truncation flag, and whether a kill was
/// ordered. Its invariant is the output-cap guarantee: no stream
/// grows past the cap unless truncation was flagged, and truncation
/// always comes with a kill order and the end of reading.
pub struct Drain {
    pub max_bytes: usize,
    pub out: Vec<u8>,
    pub err: Vec<u8>,
    pub truncated: bool,
    pub kill_requested: bool,
    pub stopped: bool,
}

impl Drain {
    /// The invariant every event preserves.
    pub open spec fn wf(self) -> bool {
        &&& self.max_bytes <= usize::MAX / 2 - CHUNK_CAP
        &&& (!self.truncated ==> self.out@.len() <= self.max_bytes && self.err@.len()
            <= self.max_bytes)
        &&& self.out@.len() <= self.max_bytes + CHUNK_CAP
        &&& self.err@.len() <= self.max_bytes + CHUNK_CAP
        &&& (self.truncated ==> self.kill_requested && self.stopped)
        &&& (self.kill_requested ==> self.stopped)
    }

    /// Start draining under a byte cap per stream.
    pub fn new(max_bytes: usize) -> (r: Self)
        requires
            max_bytes <= usize::MAX / 2 - CHUNK_CAP,
        ensures
            r.wf(),
            r.max_bytes == max_bytes,
            r.out@ == Seq::<u8>::empty(),
            r.err@ == Seq::<u8>::empty(),
            !r.truncated,
            !r.kill_requested,
            !r.stopped,
    {
        Drain {
            max_bytes,
            out: Vec::new(),
            err: Vec::new(),
            truncated: false,
            kill_requested: false,
            stopped: false,
        }
    }

    /// Take one chunk read from stdout. Past the cap, the captured
    /// prefix is retained, truncation is flagged, and the child is to
    /// be killed with reading stopped.
    pub fn on_stdout(&mut self, chunk: &[u8]) -> (a: DrainAction)
        requires
            old(self).wf(),
            !old(self).stopped,
            0 < chunk@.len() <= CHUNK_CAP,
        ensures
            final(self).wf(),
            final(self).out@ == old(self).out@ + chunk@,
            final(self).err@ == old(self).err@,
            final(self).max_bytes == old(self).max_bytes,
            final(self).truncated == (final(self).out@.len() > old(self).max_bytes),
            final(self).kill_requested == final(self).truncated,
            final(self).stopped == final(self).truncated,
            a == (if final(self).truncated {
                DrainAction::KillAndStop
            } else {
                DrainAction::Continue
            }),
    {
        self.out.extend_from_slice(chunk);
        if self.out.len() > self.max_bytes {
            self.truncated = true;
            self.kill_requested = true;
            self.stopped = true;
            DrainAction::KillAndStop
        } else {
            DrainAction::Continue
        }
    }

    /// Take one chunk read from stderr; the same cap applies to it.
    pub fn on_stderr(&mut self, chunk: &[u8]) -> (a: DrainAction)
        requires
            old(self).wf(),
            !old(self).stopped,
            0 < chunk@.len() <= CHUNK_CAP,
        ensures
            final(self).wf(),
            final(self).err@ == old(self).err@ + chunk@,
            final(self).out@ == old(self).out@,
            final(self).max_bytes == old(self).max_bytes,
            final(self).truncated == (final(self).err@.len() > old(self).max_bytes),
            final(self).kill_requested == final(self).truncated,
            final(self).stopped == final(self).truncated,
            a == (if final(self).truncated {
                DrainAction::KillAndStop
            } else {
                DrainAction::Continue
            }),
    {
        self.err.extend_from_slice(chunk);
        if self.err.len() > self.max_bytes {
            self.truncated = true;
            self.kill_requested = true;
            self.stopped = true;
            DrainAction::KillAndStop
        } else {
            DrainAction::Continue
        }
    }

    /// Stdout closed: reading ends, as the drain loop follows the
    /// stream that programs report their output on.
    pub fn on_stdout_eof(&mut self) -> (a: DrainAction)
        requires
            old(self).wf(),
        ensures
            final(self).wf(),
            *final(self) == (Drain { stopped: true, ..*old(self) }),
            a == DrainAction::Stop,
    {
        self.stopped = true;
        DrainAction::Stop
    }

    /// Stderr closed: stdout may still be open, reading goes on.
    pub fn on_stderr_eof(&self) -> (a: DrainAction)
        ensures
            a == DrainAction::Continue,
    {
        DrainAction::Continue
    }
}

/// Captured output never exceeds the cap silently: a stream past the
/// cap means the truncation flag is set and the kill of the child was
/// ordered before any result is produced.
pub proof fn lemma_drain_capture_bound(d: Drain)
    requires
        d.wf(),
    ensures
        d.out@.len() > d.max_bytes ==> d.truncated,
        d.err@.len() > d.max_bytes ==> d.truncated,
        d.truncated ==> d.kill_requested,
{
}

/// What one exec invocation reports.
pub struct ExecResult {
    pub exit_code: i32,
    pub stdout_b64: String,
    pub stderr_b64: String,
    pub duration_ms: u64,
    pub truncated: bool,
    pub timed_out: bool,
}

impl ExecTool {
    /// Fold a finished drain and the reaped status into the response:
    /// both streams base64-encoded, the exit code (zero when the
    /// kernel reports none, as for a signal kill), and the two flags.
    pub fn build_result(drain: &Drain, exit_code: Option<i32>, duration_ms: u64, timed_out:
        bool) -> (r: ExecResult)
        requires
            drain.wf(),
        ensures
            r.stdout_b64@ == b64_of(drain.out@),
            r.stderr_b64@ == b64_of(drain.err@),
            b64_decode_of(r.stdout_b64@) == Some(drain.out@),
            b64_decode_of(r.stderr_b64@) == Some(drain.err@),
            r.truncated == drain.truncated,
            r.timed_out == timed_out,
            r.duration_ms == duration_ms,
            r.exit_code == match exit_code {
                Some(c) => c,
                None => 0i32,
            },
    {
        ExecResult {
            exit_code: match exit_code {
                Some(c) => c,
                None => 0,
            },
            stdout_b64: b64_encode(drain.out.as_slice()),
            stderr_b64: b64_encode(drain.err.as_slice()),
            duration_ms,
            truncated: drain.truncated,
            timed_out,
        }
    }
}

/// One record of a streaming exec response, in wire order.
pub enum StreamEvent {
    Start,
    StdoutChunk(String),
    StderrChunk(String),
    End(u64),
    Failed(String, String),
}

/// The streaming protocol: exactly one start record before anything
/// else, chunk records only in between, and exactly one terminal
/// record (end or error), after which nothing follows. The
/// preconditions make any other order of calls impossible.
pub struct StreamEmitter {
    pub started: bool,
    pub terminated: bool,
}

impl StreamEmitter {
    /// A fresh response: nothing emitted yet.
    pub fn new() -> (r: Self)
        ensures
            !r.started,
            !r.terminated,
    {
        StreamEmitter { started: false, terminated: false }
    }

    /// The one start record, before any I/O.
    pub fn start(&mut self) -> (e: StreamEvent)
        requires
            !old(self).started,
            !old(self).terminated,
        ensures
            final(self).started,
            !final(self).terminated,
            e is Start,
    {
        self.started = true;
        StreamEvent::Start
    }

    /// One stdout chunk, base64 of the raw read.
    pub fn stdout_chunk(&mut self, data: &[u8]) -> (e: StreamEvent)
        requires
            old(self).started,
            !old(self).terminated,
            data@.len() <= CHUNK_CAP,
        ensures
            *final(self) == *old(self),
            e matches StreamEvent::StdoutChunk(c) && c@ == b64_of(data@),
    {
        StreamEvent::StdoutChunk(b64_encode(data))
    }

    /// One stderr chunk, base64 of the raw read.
    pub fn stderr_chunk(&mut self, data: &[u8]) -> (e: StreamEvent)
        requires
            old(self).started,
            !old(self).terminated,
            data@.len() <= CHUNK_CAP,
        ensures
            *final(self) == *old(self),
            e matches StreamEvent::StderrChunk(c) && c@ == b64_of(data@),
    {
        StreamEvent::StderrChunk(b64_encode(data))
    }

    /// The one terminal record of a completed run.
    pub fn finish(&mut self, duration_ms: u64) -> (e: StreamEvent)
        requires
            old(self).started,
            !old(self).terminated,
        ensures
            final(self).terminated,
            final(self).started,
            e matches StreamEvent::End(d) && d == duration_ms,
    {
        self.terminated = true;
        StreamEvent::End(duration_ms)
    }

    /// The one terminal record of a failed run: the error's code and
    /// message.
    pub fn fail(&mut self, err: &AppError) -> (e: StreamEvent)
        requires
            old(self).started,
            !old(self).terminated,
        ensures
            final(self).terminated,
            final(self).started,
            e matches StreamEvent::Failed(c, m) && c@ == err.code_view() && m@
                == err.message_view(),
    {
        self.terminated = true;
        StreamEvent::Failed(String::from_str(err.code()), err.message())
    }
}

impl ExecTool {
    /// Build the scrubbed environment the child inherits.
    pub fn scrub_env(&self, env: &Vec<(String, String)>) -> (r: Vec<(String, String)>)
        ensures
            r@ == scrubbed(self.pass_env@, env@),
    {
        let mut r: Vec<(String, String)> = Vec::new();
        let mut i: usize = 0;
        while i < self.pass_env.len()
            invariant
                i <= self.pass_env@.len(),
                r@ == scrubbed(self.pass_env@.subrange(0, i as int), env@),
            decreases self.pass_env@.len() - i,
        {
            let ghost prefix = self.pass_env@.subrange(0, i as int + 1);
            proof {
                assert(prefix.drop_last() =~= self.pass_env@.subrange(0, i as int));
                assert(prefix.last() == self.pass_env@[i as int]);
            }
            let name = &self.pass_env[i];
            match env_lookup(env, name.as_str()) {
                Some(v) => {
                    r.push((name.clone(), v));
                },
                None => {
                },
            }
            i = i + 1;
        }
        proof {
            assert(self.pass_env@.subrange(0, self.pass_env@.len() as int) =~= self.pass_env@);
        }
        r
    }
}

} // verus!
