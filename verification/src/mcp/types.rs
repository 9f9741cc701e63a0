//! Shared protocol types.

use vstd::prelude::*;
use crate::errors::AppError;

verus! {

/// The code/message pair of a protocol-level error object.
#[derive(Debug)]
pub struct ErrorObj {
    pub code: String,
    pub message: String,
}

impl ErrorObj {
    /// The error object a refusal is reported as.
    pub fn of(err: &AppError) -> (r: ErrorObj)
        ensures
            r.code@ == err.code_view(),
            r.message@ == err.message_view(),
    {
        ErrorObj { code: String::from_str(err.code()), message: err.message() }
    }
}

} // verus!
