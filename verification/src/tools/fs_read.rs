//! The file-read tool: a bounded read of an in-root file, returned
//! base64-encoded.

use vstd::prelude::*;
use crate::b64::{b64_of, b64_decode_of, b64_encode};
use crate::config::Config;
use crate::errors::AppError;
use crate::tools::{has_component, is_abs, resolve_for_write, Resolved};

verus! {

/// The read tool: holds the jail root the paths are confined to.
pub struct FsReadTool {
    pub root: String,
}

/// What a successful read returns.
pub struct FsReadResult {
    pub content_b64: String,
    pub encoding: String,
}

impl FsReadTool {
    /// Build the tool over the configured root.
    pub fn new(cfg: &Config) -> (r: Self)
        ensures
            r.root@ == cfg.root.root_dir@,
    {
        FsReadTool { root: cfg.root.root_dir.clone() }
    }

    /// Admit only paths confined to the root; any refusal, I/O or
    /// containment, is `PathOutsideRoot`. A path whose target does not
    /// exist yet is resolved through its deepest existing ancestor, so
    /// that a missing in-root file is admitted here and surfaces as
    /// `NotFound` from the read itself, never as a confinement error.
    pub fn authorize(&self, path: &str) -> (r: Result<Resolved, AppError>)
        ensures
            r is Ok ==> r->Ok_0.wf(),
            r is Ok ==> is_abs(r->Ok_0.full@),
            r is Ok ==> !has_component(r->Ok_0.full@, ".."@),
            r is Err ==> r->Err_0 is PathOutsideRoot,
    {
        match resolve_for_write(self.root.as_str(), path) {
            Ok(res) => Ok(res),
            Err(_) => Err(AppError::PathOutsideRoot),
        }
    }

    /// Fold a read failure into the taxonomy: a missing file is
    /// `NotFound`, any other filesystem error `Internal`.
    pub fn read_error(not_found: bool, message: String) -> (r: AppError)
        ensures
            not_found ==> r is NotFound,
            !not_found ==> (r matches AppError::Internal(m) && m@ == message@),
    {
        if not_found {
            AppError::NotFound
        } else {
            AppError::Internal(message)
        }
    }

    /// Package the bytes read: the response carries their base64 form
    /// and decodes back to exactly the bytes the file held.
    pub fn finish(data: &Vec<u8>) -> (r: FsReadResult)
        requires
            data@.len() <= usize::MAX / 2,
        ensures
            r.content_b64@ == b64_of(data@),
            b64_decode_of(r.content_b64@) == Some(data@),
            r.encoding@ == "base64"@,
    {
        FsReadResult {
            content_b64: b64_encode(data.as_slice()),
            encoding: String::from_str("base64"),
        }
    }
}

} // verus!
