//! The error taxonomy every component folds its failures into, with the
//! code string and HTTP status each one maps to.

use vstd::prelude::*;

verus! {

/// One value for every way a request can be refused or fail.
#[derive(Debug)]
pub enum AppError {
    Unauthorized,
    Forbidden,
    OriginDenied,
    RequestTooLarge,
    PathOutsideRoot,
    NotFound,
    ExecDenied,
    ExecTimeout,
    ToolError(String),
    Internal(String),
}

/// The code/message pair serialized into an error response body.
#[derive(Debug)]
pub struct ErrorBody {
    pub code: String,
    pub message: String,
}

impl AppError {
    /// The code string of the error, as a sequence of characters.
    pub open spec fn code_view(self) -> Seq<char> {
        match self {
            AppError::Unauthorized => "Unauthorized"@,
            AppError::Forbidden => "Forbidden"@,
            AppError::OriginDenied => "OriginDenied"@,
            AppError::RequestTooLarge => "RequestTooLarge"@,
            AppError::PathOutsideRoot => "PathOutsideRoot"@,
            AppError::NotFound => "NotFound"@,
            AppError::ExecDenied => "ExecDenied"@,
            AppError::ExecTimeout => "ExecTimeout"@,
            AppError::ToolError(_) => "ToolError"@,
            AppError::Internal(_) => "Internal"@,
        }
    }

    /// The HTTP status of the error.
    pub open spec fn status_view(self) -> u16 {
        match self {
            AppError::Unauthorized => 401u16,
            AppError::Forbidden => 403u16,
            AppError::OriginDenied => 403u16,
            AppError::PathOutsideRoot => 403u16,
            AppError::ExecDenied => 403u16,
            AppError::RequestTooLarge => 413u16,
            AppError::NotFound => 404u16,
            AppError::ExecTimeout => 408u16,
            AppError::ToolError(_) => 400u16,
            AppError::Internal(_) => 500u16,
        }
    }

    /// The message of the error, as a sequence of characters.
    pub open spec fn message_view(self) -> Seq<char> {
        match self {
            AppError::Unauthorized => "unauthorized"@,
            AppError::Forbidden => "forbidden"@,
            AppError::OriginDenied => "origin denied"@,
            AppError::RequestTooLarge => "request too large"@,
            AppError::PathOutsideRoot => "path outside root"@,
            AppError::NotFound => "not found"@,
            AppError::ExecDenied => "exec denied"@,
            AppError::ExecTimeout => "exec timeout"@,
            AppError::ToolError(m) => "tool error: "@ + m@,
            AppError::Internal(m) => "internal error: "@ + m@,
        }
    }

    /// The stable code string of the error taxonomy.
    pub fn code(&self) -> (r: &'static str)
        ensures
            r@ == self.code_view(),
    {
        match self {
            AppError::Unauthorized => "Unauthorized",
            AppError::Forbidden => "Forbidden",
            AppError::OriginDenied => "OriginDenied",
            AppError::RequestTooLarge => "RequestTooLarge",
            AppError::PathOutsideRoot => "PathOutsideRoot",
            AppError::NotFound => "NotFound",
            AppError::ExecDenied => "ExecDenied",
            AppError::ExecTimeout => "ExecTimeout",
            AppError::ToolError(_) => "ToolError",
            AppError::Internal(_) => "Internal",
        }
    }

    /// The HTTP status the error is reported under.
    pub fn status(&self) -> (r: u16)
        ensures
            r == self.status_view(),
    {
        match self {
            AppError::Unauthorized => 401,
            AppError::Forbidden | AppError::OriginDenied | AppError::PathOutsideRoot
            | AppError::ExecDenied => 403,
            AppError::RequestTooLarge => 413,
            AppError::NotFound => 404,
            AppError::ExecTimeout => 408,
            AppError::ToolError(_) => 400,
            AppError::Internal(_) => 500,
        }
    }

    /// The human-readable message of the error.
    pub fn message(&self) -> (r: String)
        ensures
            r@ == self.message_view(),
    {
        match self {
            AppError::Unauthorized => String::from_str("unauthorized"),
            AppError::Forbidden => String::from_str("forbidden"),
            AppError::OriginDenied => String::from_str("origin denied"),
            AppError::RequestTooLarge => String::from_str("request too large"),
            AppError::PathOutsideRoot => String::from_str("path outside root"),
            AppError::NotFound => String::from_str("not found"),
            AppError::ExecDenied => String::from_str("exec denied"),
            AppError::ExecTimeout => String::from_str("exec timeout"),
            AppError::ToolError(m) => String::from_str("tool error: ").concat(m.as_str()),
            AppError::Internal(m) => String::from_str("internal error: ").concat(m.as_str()),
        }
    }

    /// The error body of a response carrying this error.
    pub fn body(&self) -> (r: ErrorBody)
        ensures
            r.code@ == self.code_view(),
            r.message@ == self.message_view(),
    {
        ErrorBody { code: String::from_str(self.code()), message: self.message() }
    }
}

} // verus!
